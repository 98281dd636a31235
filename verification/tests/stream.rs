use futures::executor::block_on;
use futures::future::join;
use futures::stream::Stream;
use futures::StreamExt;
use jni_utils::env::Env;
use jni_utils::errors::Error;
use jni_utils::exceptions::Payload;
use jni_utils::objects::{GlobalRef, JObject};
use jni_utils::ops::NoFn;
use jni_utils::sources::new_stream;
use jni_utils::stream::{JStream, JStreamPoll, JavaStream};
use std::cell::RefCell;
use std::pin::Pin;
use std::rc::Rc;
use std::sync::{Arc, Mutex};
use std::task::{Context, Poll, Wake, Waker};

type Unwind = Payload<()>;
type TestEnv = Env<NoFn, Unwind>;

struct TestWakerData(Mutex<bool>);

impl TestWakerData {
    fn new() -> Self {
        Self(Mutex::new(false))
    }

    fn value(&self) -> bool {
        *self.0.lock().unwrap()
    }

    fn set_value(&self, value: bool) {
        let mut guard = self.0.lock().unwrap();
        *guard = value;
    }
}

impl Wake for TestWakerData {
    fn wake(self: Arc<Self>) {
        Self::wake_by_ref(&self);
    }

    fn wake_by_ref(self: &Arc<Self>) {
        self.set_value(true);
    }
}

fn test_waker(data: &Arc<TestWakerData>) -> Waker {
    Waker::from(data.clone())
}

fn jvm() -> TestEnv {
    let mut env: TestEnv = Env::new();
    jni_utils::init(&mut env).unwrap();
    env
}

/// Signals what a wake returned, as the native side does.
fn signal(found: Option<Waker>) {
    if let Some(waker) = found {
        waker.wake();
    }
}

/// A stream over a managed side that is shared with the producer.
struct Awaited {
    env: Rc<RefCell<TestEnv>>,
    stream: JStream,
}

impl Stream for Awaited {
    type Item = Result<JObject, Error>;

    fn poll_next(self: Pin<&mut Self>, context: &mut Context<'_>) -> Poll<Option<Self::Item>> {
        self.stream.poll_next(&mut self.env.borrow_mut(), context)
    }
}

#[test]
fn stream_test_jstream() {
    let mut env = jvm();
    let data = Arc::new(TestWakerData::new());
    assert_eq!(Arc::strong_count(&data), 1);
    assert_eq!(data.value(), false);

    let waker = test_waker(&data);
    assert_eq!(Arc::strong_count(&data), 2);
    assert_eq!(data.value(), false);

    let stream_obj = new_stream(&mut env).unwrap();
    let stream = JStream::from_env(&env, stream_obj).unwrap();

    assert!(stream.poll_next(&mut env, &mut Context::from_waker(&waker)).is_pending());
    assert_eq!(Arc::strong_count(&data), 3);
    assert_eq!(data.value(), false);

    let obj1 = env.new_object("java/lang/Object").unwrap();
    signal(env.push_stream(stream_obj, obj1).unwrap());
    assert_eq!(Arc::strong_count(&data), 2);
    assert_eq!(data.value(), true);
    data.set_value(false);

    let obj2 = env.new_object("java/lang/Object").unwrap();
    signal(env.push_stream(stream_obj, obj2).unwrap());
    assert_eq!(Arc::strong_count(&data), 2);
    assert_eq!(data.value(), false);
    data.set_value(false);

    let poll = stream.poll_next(&mut env, &mut Context::from_waker(&waker));
    if let Poll::Ready(Some(Ok(actual_obj1))) = poll {
        assert!(env.is_same_object(actual_obj1, obj1));
    } else {
        panic!("Poll result should be ready");
    }
    assert_eq!(Arc::strong_count(&data), 2);
    assert_eq!(data.value(), false);

    let poll = stream.poll_next(&mut env, &mut Context::from_waker(&waker));
    if let Poll::Ready(Some(Ok(actual_obj2))) = poll {
        assert!(env.is_same_object(actual_obj2, obj2));
    } else {
        panic!("Poll result should be ready");
    }
    assert_eq!(Arc::strong_count(&data), 2);
    assert_eq!(data.value(), false);

    assert!(stream.poll_next(&mut env, &mut Context::from_waker(&waker)).is_pending());
    assert_eq!(Arc::strong_count(&data), 3);
    assert_eq!(data.value(), false);

    signal(env.finish_stream(stream_obj).unwrap());
    assert_eq!(Arc::strong_count(&data), 2);
    assert_eq!(data.value(), true);
    data.set_value(false);

    let poll = stream.poll_next(&mut env, &mut Context::from_waker(&waker));
    if let Poll::Ready(None) = poll {
    } else {
        panic!("Poll result should be ready");
    }
    assert_eq!(Arc::strong_count(&data), 2);
    assert_eq!(data.value(), false);
}

#[test]
fn mod_test_jstream() {
    let mut env = jvm();

    let data = Arc::new(TestWakerData::new());
    assert_eq!(Arc::strong_count(&data), 1);
    assert_eq!(data.value(), false);

    let waker = test_waker(&data);
    assert_eq!(Arc::strong_count(&data), 2);
    assert_eq!(data.value(), false);

    let waker_obj = new_stream(&mut env).unwrap();
    let stream = JStream::from_env(&env, waker_obj).unwrap().with_strict_wakers();

    assert!(stream.poll_next(&mut env, &mut Context::from_waker(&waker)).is_pending());
    assert_eq!(Arc::strong_count(&data), 3);
    assert_eq!(data.value(), false);

    let obj1 = env.new_object("java/lang/Object").unwrap();
    signal(env.push_stream(waker_obj, obj1).unwrap());
    assert_eq!(Arc::strong_count(&data), 3);
    assert_eq!(data.value(), true);
    data.set_value(false);

    let obj2 = env.new_object("java/lang/Object").unwrap();
    signal(env.push_stream(waker_obj, obj2).unwrap());
    assert_eq!(Arc::strong_count(&data), 3);
    assert_eq!(data.value(), true);
    data.set_value(false);

    let poll = stream.poll_next(&mut env, &mut Context::from_waker(&waker));
    if let Poll::Ready(Some(Ok(actual_obj1))) = poll {
        assert!(env.is_same_object(actual_obj1, obj1));
    } else {
        panic!("Poll result should be ready");
    }
    assert_eq!(Arc::strong_count(&data), 4);
    assert_eq!(data.value(), false);

    let poll = stream.poll_next(&mut env, &mut Context::from_waker(&waker));
    if let Poll::Ready(Some(Ok(actual_obj2))) = poll {
        assert!(env.is_same_object(actual_obj2, obj2));
    } else {
        panic!("Poll result should be ready");
    }
    assert_eq!(Arc::strong_count(&data), 5);
    assert_eq!(data.value(), false);

    assert!(stream.poll_next(&mut env, &mut Context::from_waker(&waker)).is_pending());
    assert_eq!(Arc::strong_count(&data), 6);
    assert_eq!(data.value(), false);

    signal(env.finish_stream(waker_obj).unwrap());
    assert_eq!(Arc::strong_count(&data), 6);
    assert_eq!(data.value(), true);
    data.set_value(false);

    let poll = stream.poll_next(&mut env, &mut Context::from_waker(&waker));
    if let Poll::Ready(None) = poll {
    } else {
        panic!("Poll result should be ready");
    }
    assert_eq!(Arc::strong_count(&data), 7);
    assert_eq!(data.value(), false);
}

#[test]
fn stream_test_jstream_await() {
    let mut env = jvm();
    let stream_obj = new_stream(&mut env).unwrap();
    let stream = JStream::from_env(&env, stream_obj).unwrap();
    let obj1 = env.new_object("java/lang/Object").unwrap();
    let obj2 = env.new_object("java/lang/Object").unwrap();
    let env = Rc::new(RefCell::new(env));
    let mut stream = Awaited { env: env.clone(), stream };

    block_on(join(
        async {
            signal(env.borrow_mut().push_stream(stream_obj, obj1).unwrap());
            signal(env.borrow_mut().push_stream(stream_obj, obj2).unwrap());
            signal(env.borrow_mut().finish_stream(stream_obj).unwrap());
        },
        async {
            let first = stream.next().await.unwrap().unwrap();
            assert!(env.borrow().is_same_object(first, obj1));
            let second = stream.next().await.unwrap().unwrap();
            assert!(env.borrow().is_same_object(second, obj2));
            assert!(stream.next().await.is_none());
        },
    ));
}

#[test]
fn mod_test_jstream_await() {
    let mut env = jvm();
    let waker_obj = new_stream(&mut env).unwrap();
    let stream = JStream::from_env(&env, waker_obj).unwrap().with_strict_wakers();
    let obj1 = env.new_object("java/lang/Object").unwrap();
    let obj2 = env.new_object("java/lang/Object").unwrap();
    let env = Rc::new(RefCell::new(env));
    let mut stream = Awaited { env: env.clone(), stream };

    block_on(join(
        async {
            signal(env.borrow_mut().push_stream(waker_obj, obj1).unwrap());
            signal(env.borrow_mut().push_stream(waker_obj, obj2).unwrap());
            signal(env.borrow_mut().finish_stream(waker_obj).unwrap());
        },
        async {
            let first = stream.next().await.unwrap().unwrap();
            assert!(env.borrow().is_same_object(first, obj1));
            let second = stream.next().await.unwrap().unwrap();
            assert!(env.borrow().is_same_object(second, obj2));
            assert!(stream.next().await.is_none());
        },
    ));
}

/// The consumer is polled before the producer has anything: it is woken by
/// each step of the producer that follows a pending poll.
#[test]
fn stream_consumer_first() {
    let mut env = jvm();
    let stream_obj = new_stream(&mut env).unwrap();
    let stream = JStream::from_env(&env, stream_obj).unwrap();
    let obj1 = env.new_object("java/lang/Object").unwrap();
    let env = Rc::new(RefCell::new(env));
    let mut stream = Awaited { env: env.clone(), stream };

    block_on(join(
        async {
            assert_eq!(stream.next().await, Some(Ok(obj1)));
            assert_eq!(stream.next().await, None);
        },
        async {
            signal(env.borrow_mut().push_stream(stream_obj, obj1).unwrap());
            signal(env.borrow_mut().finish_stream(stream_obj).unwrap());
        },
    ));
}

#[test]
fn items_come_out_in_the_order_they_went_in() {
    let mut env = jvm();
    let stream_obj = new_stream(&mut env).unwrap();
    let stream = JStream::from_env(&env, stream_obj).unwrap();
    let mut items = Vec::new();
    for _ in 0..5 {
        let item = env.new_object("java/lang/Object").unwrap();
        signal(env.push_stream(stream_obj, item).unwrap());
        items.push(item);
    }
    signal(env.finish_stream(stream_obj).unwrap());
    for item in items {
        assert_eq!(stream.j_poll_next(&mut env, JObject::null()), Ok(Poll::Ready(Some(item))));
    }
    assert_eq!(stream.j_poll_next(&mut env, JObject::null()), Ok(Poll::Ready(None)));
    assert_eq!(stream.j_poll_next(&mut env, JObject::null()), Ok(Poll::Ready(None)));
}

#[test]
fn stream_poll_wraps_one_item() {
    let mut env = jvm();
    let stream_obj = new_stream(&mut env).unwrap();
    let item = env.new_object("java/lang/Object").unwrap();
    signal(env.push_stream(stream_obj, item).unwrap());
    let result = env.poll_stream(stream_obj, JObject::null()).unwrap();
    let held = jni_utils::task::JPollResult::from_env(&env, result).unwrap().get(&mut env).unwrap();
    assert_eq!(JStreamPoll::from_env(&env, held).unwrap().get(&env), Ok(item));
    assert_eq!(JStreamPoll::from_env(&env, item).unwrap().get(&env), Err(Error::WrongObjectType));
    assert_eq!(
        JStreamPoll::from_env(&env, JObject::null()).unwrap().get(&env),
        Err(Error::NullPtr)
    );
}

#[test]
fn polling_what_is_no_stream_fails() {
    let mut env = jvm();
    let plain = env.new_object("java/lang/Object").unwrap();
    let stream = JStream::from_env(&env, plain).unwrap();
    assert_eq!(stream.j_poll_next(&mut env, JObject::null()), Err(Error::WrongObjectType));
    let bare: TestEnv = Env::new();
    assert_eq!(JStream::from_env(&bare, plain).err(), Some(Error::ClassNotFound));
}

/// The thread-transferable form of a stream over a shared managed side.
struct AwaitedAnywhere {
    env: Rc<RefCell<TestEnv>>,
    stream: JavaStream,
}

impl Stream for AwaitedAnywhere {
    type Item = Result<GlobalRef, Error>;

    fn poll_next(self: Pin<&mut Self>, context: &mut Context<'_>) -> Poll<Option<Self::Item>> {
        self.stream.poll_next(&mut self.env.borrow_mut(), context)
    }
}

#[test]
fn test_java_stream_await() {
    let mut env = jvm();
    let stream_obj = new_stream(&mut env).unwrap();
    let stream = JStream::from_env(&env, stream_obj).unwrap();
    let stream = JavaStream::try_from(&env, stream).unwrap();
    let obj1 = env.new_object("java/lang/Object").unwrap();
    let obj2 = env.new_object("java/lang/Object").unwrap();
    let env = Rc::new(RefCell::new(env));
    let mut stream = AwaitedAnywhere { env: env.clone(), stream };

    block_on(join(
        async {
            signal(env.borrow_mut().push_stream(stream_obj, obj1).unwrap());
            signal(env.borrow_mut().push_stream(stream_obj, obj2).unwrap());
            signal(env.borrow_mut().finish_stream(stream_obj).unwrap());
        },
        async {
            let first = stream.next().await.unwrap().unwrap();
            assert!(env.borrow().is_same_object(first.as_obj(), obj1));
            let second = stream.next().await.unwrap().unwrap();
            assert!(env.borrow().is_same_object(second.as_obj(), obj2));
            assert!(stream.next().await.is_none());
        },
    ));
}

#[test]
fn a_transferable_stream_needs_its_own_runtime() {
    let mut home = jvm();
    let stream_obj = new_stream(&mut home).unwrap();
    let stream = JStream::from_env(&home, stream_obj).unwrap();
    let stream = JavaStream::try_from(&home, stream).unwrap();

    let mut elsewhere: TestEnv = Env::with_identity(7);
    jni_utils::init(&mut elsewhere).unwrap();
    let data = Arc::new(TestWakerData::new());
    let waker = test_waker(&data);
    let poll = stream.poll_next(&mut elsewhere, &mut Context::from_waker(&waker));
    assert_eq!(poll, Poll::Ready(Some(Err(Error::ThreadDetached))));
    assert_eq!(Arc::strong_count(&data), 2);

    assert!(stream.poll_next(&mut home, &mut Context::from_waker(&waker)).is_pending());
}
