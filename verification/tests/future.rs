use futures::executor::block_on;
use futures::future::join;
use jni_utils::env::Env;
use jni_utils::errors::Error;
use jni_utils::exceptions::Payload;
use jni_utils::future::{JFuture, JavaFuture};
use jni_utils::objects::{GlobalRef, JObject, JThrowable};
use jni_utils::ops::NoFn;
use jni_utils::sources::new_future;
use jni_utils::task::JPollResult;
use std::cell::RefCell;
use std::future::Future;
use std::pin::Pin;
use std::rc::Rc;
use std::sync::{Arc, Mutex};
use std::task::{Context, Poll, Wake, Waker};

type Unwind = Payload<()>;
type TestEnv = Env<NoFn, Unwind>;

struct Flag(Mutex<bool>);

impl Wake for Flag {
    fn wake(self: Arc<Self>) {
        Self::wake_by_ref(&self);
    }

    fn wake_by_ref(self: &Arc<Self>) {
        *self.0.lock().unwrap() = true;
    }
}

fn test_waker(data: &Arc<Flag>) -> Waker {
    Waker::from(data.clone())
}

fn jvm() -> TestEnv {
    let mut env: TestEnv = Env::new();
    jni_utils::init(&mut env).unwrap();
    env
}

/// Signals what a wake returned, as the native side does.
fn signal(found: Option<Waker>) {
    if let Some(waker) = found {
        waker.wake();
    }
}

/// A future over a managed side that is shared with the producer.
struct Awaited {
    env: Rc<RefCell<TestEnv>>,
    future: JFuture,
}

impl Future for Awaited {
    type Output = Result<JPollResult, Error>;

    fn poll(self: Pin<&mut Self>, context: &mut Context<'_>) -> Poll<Self::Output> {
        self.future.poll(&mut self.env.borrow_mut(), context)
    }
}

/// The same, polled for the value or the failure of the task.
struct AwaitedValue {
    env: Rc<RefCell<TestEnv>>,
    future: JFuture,
}

impl Future for AwaitedValue {
    type Output = Result<Result<JObject, JThrowable>, Error>;

    fn poll(self: Pin<&mut Self>, context: &mut Context<'_>) -> Poll<Self::Output> {
        self.future.poll_value(&mut self.env.borrow_mut(), context)
    }
}

#[test]
fn future_test_jfuture() {
    let mut env = jvm();

    let data = Arc::new(Flag(Mutex::new(false)));
    assert_eq!(Arc::strong_count(&data), 1);
    assert_eq!(*data.0.lock().unwrap(), false);

    let waker = test_waker(&data);
    assert_eq!(Arc::strong_count(&data), 2);
    assert_eq!(*data.0.lock().unwrap(), false);

    let future_obj = new_future(&mut env).unwrap();
    let future = JFuture::from_env(&env, future_obj).unwrap().with_strict_wakers();

    assert!(future.poll(&mut env, &mut Context::from_waker(&waker)).is_pending());
    assert_eq!(Arc::strong_count(&data), 3);
    assert_eq!(*data.0.lock().unwrap(), false);

    let obj = env.new_object("java/lang/Object").unwrap();
    signal(env.complete_future(future_obj, obj).unwrap());
    assert_eq!(Arc::strong_count(&data), 3);
    assert_eq!(*data.0.lock().unwrap(), true);

    let poll = future.poll(&mut env, &mut Context::from_waker(&waker));
    if let Poll::Ready(result) = poll {
        let value = result.unwrap().get(&mut env).unwrap();
        assert!(env.is_same_object(value, obj));
    } else {
        panic!("Poll result should be ready");
    }
}

#[test]
fn mod_test_jfuture() {
    let mut env = jvm();

    let data = Arc::new(Flag(Mutex::new(false)));
    assert_eq!(Arc::strong_count(&data), 1);
    assert_eq!(*data.0.lock().unwrap(), false);

    let waker = test_waker(&data);
    assert_eq!(Arc::strong_count(&data), 2);
    assert_eq!(*data.0.lock().unwrap(), false);

    let future_obj = new_future(&mut env).unwrap();
    let future = JFuture::from_env(&env, future_obj).unwrap().with_strict_wakers();

    assert!(future.poll_value(&mut env, &mut Context::from_waker(&waker)).is_pending());
    assert_eq!(Arc::strong_count(&data), 3);
    assert_eq!(*data.0.lock().unwrap(), false);

    let obj = env.new_object("java/lang/Object").unwrap();
    signal(env.complete_future(future_obj, obj).unwrap());
    assert_eq!(Arc::strong_count(&data), 3);
    assert_eq!(*data.0.lock().unwrap(), true);

    let poll = future.poll_value(&mut env, &mut Context::from_waker(&waker));
    if let Poll::Ready(result) = poll {
        assert!(env.is_same_object(result.unwrap().ok().unwrap(), obj));
    } else {
        panic!("Poll result should be ready");
    }
}

#[test]
fn future_test_jfuture_await() {
    let mut env = jvm();
    let future_obj = new_future(&mut env).unwrap();
    let future = JFuture::from_env(&env, future_obj).unwrap();
    let obj = env.new_object("java/lang/Object").unwrap();
    let env = Rc::new(RefCell::new(env));
    let awaited = Awaited { env: env.clone(), future };

    block_on(join(
        async {
            signal(env.borrow_mut().complete_future(future_obj, obj).unwrap());
        },
        async {
            let result = awaited.await.unwrap();
            let value = result.get(&mut env.borrow_mut()).unwrap();
            assert!(env.borrow().is_same_object(value, obj));
        },
    ));
}

#[test]
fn future_test_jfuture_await_throw() {
    let mut env = jvm();
    let future_obj = new_future(&mut env).unwrap();
    let future = JFuture::from_env(&env, future_obj).unwrap();
    let ex = env.new_object("java/lang/Exception").unwrap();
    let env = Rc::new(RefCell::new(env));
    let awaited = Awaited { env: env.clone(), future };

    block_on(join(
        async {
            signal(env.borrow_mut().fail_future(future_obj, JThrowable::from_object(ex)).unwrap());
        },
        async {
            let result = awaited.await.unwrap();
            let mut env = env.borrow_mut();
            result.get(&mut env).unwrap_err();
            let future_ex = env.exception_occurred();
            env.exception_clear();
            let actual_ex = env.get_cause(future_ex).unwrap();
            assert!(env.is_same_object(actual_ex, ex));
        },
    ));
}

#[test]
fn mod_test_jfuture_await() {
    let mut env = jvm();
    let future_obj = new_future(&mut env).unwrap();
    let future = JFuture::from_env(&env, future_obj).unwrap();
    let obj = env.new_object("java/lang/Object").unwrap();
    let env = Rc::new(RefCell::new(env));
    let awaited = AwaitedValue { env: env.clone(), future };

    block_on(join(
        async {
            signal(env.borrow_mut().complete_future(future_obj, obj).unwrap());
        },
        async {
            let value = awaited.await.unwrap().ok().unwrap();
            assert!(env.borrow().is_same_object(value, obj));
        },
    ));
}

#[test]
fn mod_test_jfuture_await_throw() {
    let mut env = jvm();
    let future_obj = new_future(&mut env).unwrap();
    let future = JFuture::from_env(&env, future_obj).unwrap();
    let ex = env.new_object("java/lang/Exception").unwrap();
    let env = Rc::new(RefCell::new(env));
    let awaited = AwaitedValue { env: env.clone(), future };

    block_on(join(
        async {
            signal(env.borrow_mut().fail_future(future_obj, JThrowable::from_object(ex)).unwrap());
        },
        async {
            let actual_ex = awaited.await.unwrap().err().unwrap();
            assert!(env.borrow().is_same_object(actual_ex.into_object(), ex));
            assert!(!env.borrow().exception_check());
        },
    ));
}

/// The producer completes the source only after the consumer has been
/// polled once: the consumer is woken and the second poll is ready.
#[test]
fn pending_then_woken_then_ready() {
    let mut env = jvm();
    let future_obj = new_future(&mut env).unwrap();
    let future = JFuture::from_env(&env, future_obj).unwrap();
    let obj = env.new_object("java/lang/Object").unwrap();
    let env = Rc::new(RefCell::new(env));
    let awaited = AwaitedValue { env: env.clone(), future };

    block_on(join(
        async {
            let value = awaited.await.unwrap().ok().unwrap();
            assert_eq!(value, obj);
        },
        async {
            signal(env.borrow_mut().complete_future(future_obj, obj).unwrap());
        },
    ));
}

#[test]
fn a_failure_that_is_no_task_failure_is_a_hard_error() {
    let mut env = jvm();
    let future_obj = new_future(&mut env).unwrap();
    let future = JFuture::from_env(&env, future_obj).unwrap();
    let raw = JThrowable::from_object(env.new_object("java/lang/Exception").unwrap());
    signal(
        env.settle_future(
            future_obj,
            jni_utils::objects::PollData { value: JObject::null(), failure: Some(raw) },
        )
        .unwrap(),
    );
    let waker = test_waker(&Arc::new(Flag(Mutex::new(false))));
    let poll = future.poll_value(&mut env, &mut Context::from_waker(&waker));
    assert_eq!(poll, Poll::Ready(Err(Error::JavaException)));
    assert_eq!(env.exception_occurred(), raw);
}

#[test]
fn the_first_completion_counts() {
    let mut env = jvm();
    let future_obj = new_future(&mut env).unwrap();
    let first = env.new_object("java/lang/Object").unwrap();
    let second = env.new_object("java/lang/Object").unwrap();
    signal(env.complete_future(future_obj, first).unwrap());
    signal(env.complete_future(future_obj, second).unwrap());
    let future = JFuture::from_env(&env, future_obj).unwrap();
    let polled = future.j_poll_value(&mut env, JObject::null()).unwrap();
    assert_eq!(polled, Poll::Ready(Ok(first)));
}

#[test]
fn polling_what_is_no_source_fails() {
    let mut env = jvm();
    let plain = env.new_object("java/lang/Object").unwrap();
    let future = JFuture::from_env(&env, plain).unwrap();
    assert_eq!(future.j_poll(&mut env, JObject::null()).err(), Some(Error::WrongObjectType));
    let null = JFuture::from_env(&env, JObject::null()).unwrap();
    assert_eq!(null.j_poll(&mut env, JObject::null()).err(), Some(Error::NullPtr));
    let bare: TestEnv = Env::new();
    assert_eq!(JFuture::from_env(&bare, plain).err(), Some(Error::ClassNotFound));
}

#[test]
fn polls_are_refused_while_an_exception_is_pending() {
    let mut env = jvm();
    let future_obj = new_future(&mut env).unwrap();
    let future = JFuture::from_env(&env, future_obj).unwrap();
    env.throw_new("java/lang/Exception", None).unwrap();
    let data = Arc::new(Flag(Mutex::new(false)));
    let waker = test_waker(&data);
    let poll = future.poll(&mut env, &mut Context::from_waker(&waker));
    assert!(matches!(poll, Poll::Ready(Err(Error::JavaException))));
    assert_eq!(Arc::strong_count(&data), 2);
}

/// The thread-transferable form of a future over a shared managed side.
struct AwaitedAnywhere {
    env: Rc<RefCell<TestEnv>>,
    future: JavaFuture,
}

impl Future for AwaitedAnywhere {
    type Output = Result<GlobalRef, Error>;

    fn poll(self: Pin<&mut Self>, context: &mut Context<'_>) -> Poll<Self::Output> {
        self.future.poll(&mut self.env.borrow_mut(), context)
    }
}

#[test]
fn future_test_java_future_await() {
    let mut env = jvm();
    let future_obj = new_future(&mut env).unwrap();
    let future = JFuture::from_env(&env, future_obj).unwrap();
    let future = JavaFuture::try_from(&env, future).unwrap();
    let obj = env.new_object("java/lang/Object").unwrap();
    let env = Rc::new(RefCell::new(env));
    let awaited = AwaitedAnywhere { env: env.clone(), future };

    block_on(join(
        async {
            signal(env.borrow_mut().complete_future(future_obj, obj).unwrap());
        },
        async {
            let global_ref = awaited.await.unwrap();
            let jpoll = JPollResult::from_env(&env.borrow(), global_ref.as_obj()).unwrap();
            let value = jpoll.get(&mut env.borrow_mut()).unwrap();
            assert!(env.borrow().is_same_object(value, obj));
        },
    ));
}

#[test]
fn mod_test_java_future_await() {
    let mut env = jvm();
    let future_obj = new_future(&mut env).unwrap();
    let future = JFuture::from_env(&env, future_obj).unwrap().with_strict_wakers();
    let future = JavaFuture::try_from(&env, future).unwrap();
    let obj = env.new_object("java/lang/Object").unwrap();
    let env = Rc::new(RefCell::new(env));
    let awaited = AwaitedAnywhere { env: env.clone(), future };

    block_on(join(
        async {
            signal(env.borrow_mut().complete_future(future_obj, obj).unwrap());
        },
        async {
            let global_ref = awaited.await.unwrap();
            let jpoll = JPollResult::from_env(&env.borrow(), global_ref.as_obj()).unwrap();
            let read = jpoll.get_with_throwable(&mut env.borrow_mut()).unwrap();
            assert!(env.borrow().is_same_object(read.ok().unwrap(), obj));
        },
    ));
}

#[test]
fn a_transferable_future_needs_its_own_runtime() {
    let mut home = jvm();
    let future_obj = new_future(&mut home).unwrap();
    let future = JFuture::from_env(&home, future_obj).unwrap();
    let future = JavaFuture::try_from(&home, future).unwrap();

    let mut elsewhere: TestEnv = Env::with_identity(7);
    jni_utils::init(&mut elsewhere).unwrap();
    let data = Arc::new(Flag(Mutex::new(false)));
    let waker = test_waker(&data);
    let poll = future.poll(&mut elsewhere, &mut Context::from_waker(&waker));
    assert_eq!(poll, Poll::Ready(Err(Error::ThreadDetached)));
    assert_eq!(elsewhere.heap.len(), 0);
    assert_eq!(Arc::strong_count(&data), 2);

    assert!(future.poll(&mut home, &mut Context::from_waker(&waker)).is_pending());
    assert_eq!(Arc::strong_count(&data), 3);
}

#[test]
fn promotion_is_refused_while_an_exception_is_pending() {
    let mut env = jvm();
    let future_obj = new_future(&mut env).unwrap();
    let future = JFuture::from_env(&env, future_obj).unwrap();
    env.throw_new("java/lang/Exception", None).unwrap();
    assert_eq!(JavaFuture::try_from(&env, future).err(), Some(Error::JavaException));
}

/// A source that is polled again before it is complete keeps the waker of
/// the last poll and gives up the one it had, without invoking it.
#[test]
fn a_second_pending_poll_replaces_the_stored_waker() {
    let mut env = jvm();
    let future_obj = new_future(&mut env).unwrap();
    let future = JFuture::from_env(&env, future_obj).unwrap();

    let first = Arc::new(Flag(Mutex::new(false)));
    let second = Arc::new(Flag(Mutex::new(false)));
    assert!(future.poll(&mut env, &mut Context::from_waker(&test_waker(&first))).is_pending());
    assert_eq!(Arc::strong_count(&first), 2);
    assert!(future.poll(&mut env, &mut Context::from_waker(&test_waker(&second))).is_pending());
    assert_eq!(Arc::strong_count(&first), 1);
    assert_eq!(Arc::strong_count(&second), 2);

    let obj = env.new_object("java/lang/Object").unwrap();
    signal(env.complete_future(future_obj, obj).unwrap());
    assert_eq!(*first.0.lock().unwrap(), false);
    assert_eq!(*second.0.lock().unwrap(), true);
    assert_eq!(Arc::strong_count(&second), 1);
}

/// A pending poll leaves a waker for the polling task in the source and
/// signals nothing; the completion returns that task's capability.
#[test]
fn completion_returns_the_capability_of_the_polling_task() {
    for strict in [false, true] {
        let mut env = jvm();
        let future_obj = new_future(&mut env).unwrap();
        let mut future = JFuture::from_env(&env, future_obj).unwrap();
        if strict {
            future = future.with_strict_wakers();
        }
        let data = Arc::new(Flag(Mutex::new(false)));
        let other = Arc::new(Flag(Mutex::new(false)));
        let waker = test_waker(&data);
        assert!(future.poll(&mut env, &mut Context::from_waker(&waker)).is_pending());
        assert_eq!(Arc::strong_count(&data), 3);
        assert_eq!(*data.0.lock().unwrap(), false);

        let obj = env.new_object("java/lang/Object").unwrap();
        let found = env.complete_future(future_obj, obj).unwrap().unwrap();
        assert!(found.will_wake(&waker));
        assert!(!found.will_wake(&test_waker(&other)));
        assert_eq!(*data.0.lock().unwrap(), false);
        found.wake();
        assert_eq!(*data.0.lock().unwrap(), true);
        assert_eq!(Arc::strong_count(&data), if strict { 3 } else { 2 });

        // Completing again changes nothing and returns nothing to signal.
        assert!(env.complete_future(future_obj, obj).unwrap().is_none());
    }
}
