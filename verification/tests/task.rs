use jni_utils::env::Env;
use jni_utils::errors::Error;
use jni_utils::exceptions::Payload;
use jni_utils::objects::JObject;
use jni_utils::ops::NoFn;
use jni_utils::task::strict::{waker_finalize, waker_wake_impl};
use jni_utils::task::{JPoll, JPollResult};
use std::sync::{Arc, Mutex};
use std::task::{Wake, Waker};

type Unwind = Payload<()>;
type TestEnv = Env<NoFn, Unwind>;

struct TestWakerData(Mutex<bool>);

impl TestWakerData {
    fn new() -> Self {
        Self(Mutex::new(false))
    }

    fn value(&self) -> bool {
        *self.0.lock().unwrap()
    }

    fn set_value(&self, value: bool) {
        let mut guard = self.0.lock().unwrap();
        *guard = value;
    }
}

impl Wake for TestWakerData {
    fn wake(self: Arc<Self>) {
        Self::wake_by_ref(&self);
    }

    fn wake_by_ref(self: &Arc<Self>) {
        self.set_value(true);
    }
}

fn waker_for(data: &Arc<TestWakerData>) -> Waker {
    Waker::from(data.clone())
}

fn jvm() -> TestEnv {
    let mut env: TestEnv = Env::new();
    jni_utils::init(&mut env).unwrap();
    env
}

/// Signals what a wake returned, as the native side does.
fn signal(found: Option<Waker>) {
    if let Some(waker) = found {
        waker.wake();
    }
}

#[test]
fn test_waker_wake() {
    let mut env = jvm();

    let data = Arc::new(TestWakerData::new());
    assert_eq!(Arc::strong_count(&data), 1);
    assert_eq!(data.value(), false);

    let waker = waker_for(&data);
    assert_eq!(Arc::strong_count(&data), 2);
    assert_eq!(data.value(), false);

    let jwaker = jni_utils::task::waker(&mut env, waker).unwrap();
    assert_eq!(Arc::strong_count(&data), 2);
    assert_eq!(data.value(), false);

    signal(env.wake(jwaker).unwrap());
    assert_eq!(Arc::strong_count(&data), 1);
    assert_eq!(data.value(), true);
    data.set_value(false);

    signal(env.wake(jwaker).unwrap());
    assert_eq!(Arc::strong_count(&data), 1);
    assert_eq!(data.value(), false);
}

#[test]
fn test_waker_close_wake() {
    let mut env = jvm();

    let data = Arc::new(TestWakerData::new());
    assert_eq!(Arc::strong_count(&data), 1);
    assert_eq!(data.value(), false);

    let waker = waker_for(&data);
    assert_eq!(Arc::strong_count(&data), 2);
    assert_eq!(data.value(), false);

    let jwaker = jni_utils::task::waker(&mut env, waker).unwrap();
    assert_eq!(Arc::strong_count(&data), 2);
    assert_eq!(data.value(), false);

    env.close_waker(jwaker).unwrap();
    assert_eq!(Arc::strong_count(&data), 1);
    assert_eq!(data.value(), false);

    signal(env.wake(jwaker).unwrap());
    assert_eq!(Arc::strong_count(&data), 1);
    assert_eq!(data.value(), false);
}

#[test]
fn test_waker() {
    let mut env = jvm();

    let data = Arc::new(TestWakerData::new());
    assert_eq!(Arc::strong_count(&data), 1);
    assert_eq!(data.value(), false);

    let waker = waker_for(&data);
    assert_eq!(Arc::strong_count(&data), 2);
    assert_eq!(data.value(), false);

    let jwaker = jni_utils::task::strict::waker(&mut env, waker).unwrap();
    assert_eq!(Arc::strong_count(&data), 2);
    assert_eq!(data.value(), false);

    signal(env.wake(jwaker).unwrap());
    assert_eq!(Arc::strong_count(&data), 2);
    assert_eq!(data.value(), true);

    waker_finalize(&mut env, jwaker);
    assert_eq!(Arc::strong_count(&data), 1);
    assert_eq!(data.value(), true);

    if let Error::JavaException = env.wake(jwaker).unwrap_err() {
    } else {
        panic!("Second wake() should have thrown an exception")
    }
    let ex = env.exception_occurred();
    env.exception_clear();

    let class = env.get_object_class(ex.into_object()).unwrap();
    let null_ptr_ex = env.find_class("java/lang/NullPointerException").unwrap();
    assert_eq!(class, null_ptr_ex);

    let message = env.get_message(ex).unwrap();
    assert_eq!(message.as_deref(), Some("This Waker has already been finalized"));

    assert_eq!(Arc::strong_count(&data), 1);
    assert_eq!(data.value(), true);
}

#[test]
fn strict_wake_rule_applies_to_slot_wakers_only() {
    let mut env = jvm();
    let data = Arc::new(TestWakerData::new());
    let silent = jni_utils::task::waker(&mut env, waker_for(&data)).unwrap();
    assert_eq!(waker_wake_impl(&mut env, silent).err(), Some(Error::WrongObjectType));
    assert_eq!(data.value(), false);
    let strict = jni_utils::task::strict::waker(&mut env, waker_for(&data)).unwrap();
    signal(waker_wake_impl(&mut env, strict).unwrap());
    assert_eq!(data.value(), true);
    assert_eq!(waker_wake_impl(&mut env, JObject::null()).err(), Some(Error::NullPtr));
}

#[test]
fn waking_is_refused_while_an_exception_is_pending() {
    let mut env = jvm();
    let data = Arc::new(TestWakerData::new());
    let jwaker = jni_utils::task::waker(&mut env, waker_for(&data)).unwrap();
    env.throw_new("java/lang/Exception", None).unwrap();
    assert_eq!(env.wake(jwaker).err(), Some(Error::JavaException));
    assert_eq!(data.value(), false);
    assert_eq!(Arc::strong_count(&data), 2);
}

#[test]
fn waker_needs_the_bridge_classes() {
    let mut env: TestEnv = Env::new();
    let data = Arc::new(TestWakerData::new());
    assert_eq!(
        jni_utils::task::waker(&mut env, waker_for(&data)).err(),
        Some(Error::ClassNotFound)
    );
    assert_eq!(
        jni_utils::task::strict::waker(&mut env, waker_for(&data)).err(),
        Some(Error::ClassNotFound)
    );
    assert_eq!(Arc::strong_count(&data), 1);
    assert_eq!(env.heap.len(), 0);
}

#[test]
fn poll_result_holds_a_value_or_raises() {
    let mut env = jvm();
    let fut = jni_utils::sources::new_future(&mut env).unwrap();
    let value = env.new_object("java/lang/Object").unwrap();
    signal(env.complete_future(fut, value).unwrap());
    let found = env.poll_future(fut, JObject::null()).unwrap();
    let poll = JPollResult::from_env(&env, found).unwrap();
    assert_eq!(poll.get(&mut env), Ok(value));
    assert_eq!(JPollResult::from_env(&env, value).unwrap().get(&mut env), Err(Error::WrongObjectType));
}

#[test]
fn poll_result_by_its_short_name() {
    let mut env = jvm();
    let fut = jni_utils::sources::new_future(&mut env).unwrap();
    let ex = jni_utils::objects::JThrowable::from_object(env.new_object("java/lang/Exception").unwrap());
    signal(env.fail_future(fut, ex).unwrap());
    let found = env.poll_future(fut, JObject::null()).unwrap();
    let poll = JPoll::from_env(&env, found).unwrap();
    assert_eq!(poll.get_with_throwable(&mut env), Ok(Err(ex)));
    assert!(!env.exception_check());
    assert_eq!(poll.get(&mut env), Err(Error::JavaException));
    assert!(env.exception_check());
}

/// The first wake of a waker that gives its capability up returns the very
/// capability it was made for; nothing is signalled before the caller
/// signals it, and the second wake returns nothing.
#[test]
fn wake_returns_the_capability_it_was_made_for() {
    let mut env = jvm();
    let data = Arc::new(TestWakerData::new());
    let other = Arc::new(TestWakerData::new());
    let jwaker = jni_utils::task::waker(&mut env, waker_for(&data)).unwrap();

    let found = env.wake(jwaker).unwrap().unwrap();
    assert!(found.will_wake(&waker_for(&data)));
    assert!(!found.will_wake(&waker_for(&other)));
    assert_eq!(data.value(), false);
    assert_eq!(Arc::strong_count(&data), 2);
    found.wake();
    assert_eq!(data.value(), true);
    assert_eq!(Arc::strong_count(&data), 1);

    assert!(env.wake(jwaker).unwrap().is_none());
}

/// A waker that holds its capability in a slot returns a second handle to
/// it on every wake and keeps its own until it is finalized.
#[test]
fn strict_wake_returns_a_second_handle() {
    let mut env = jvm();
    let data = Arc::new(TestWakerData::new());
    let jwaker = jni_utils::task::strict::waker(&mut env, waker_for(&data)).unwrap();
    for _ in 0..3 {
        let found = env.wake(jwaker).unwrap().unwrap();
        assert!(found.will_wake(&waker_for(&data)));
        assert_eq!(Arc::strong_count(&data), 3);
        assert_eq!(data.value(), false);
        found.wake();
        assert_eq!(data.value(), true);
        assert_eq!(Arc::strong_count(&data), 2);
        data.set_value(false);
    }
    waker_finalize(&mut env, jwaker);
    assert_eq!(Arc::strong_count(&data), 1);
    assert_eq!(data.value(), false);
}

/// Closing releases the capability and returns nothing to signal.
#[test]
fn close_signals_nothing() {
    let mut env = jvm();
    let data = Arc::new(TestWakerData::new());
    let jwaker = jni_utils::task::waker(&mut env, waker_for(&data)).unwrap();
    assert_eq!(env.close_waker(jwaker), Ok(()));
    assert_eq!(Arc::strong_count(&data), 1);
    assert_eq!(data.value(), false);
    assert!(env.wake(jwaker).unwrap().is_none());
    assert_eq!(data.value(), false);
}
