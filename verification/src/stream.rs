//! Poll adapter for multi-value completion sources.
use vstd::prelude::*;
use std::task::{Context, Poll, Waker};
use crate::env::{Env, EnvView};
use crate::errors::Error;
use crate::exceptions::PanicPayload;
use crate::future::{
    can_wrap_waker, first_signal, poll_answer, polling_capability, waker_handle, with_waker,
    wrap_waker,
};
use crate::objects::{
    Action, CallContract, GlobalRef, JObject, JavaVM, ObjectData, StreamView,
};
use crate::ops::{armed, NativeFn};
use crate::sources::{stream_polled, stream_produced, STREAM_POLL_CLASS};
use crate::task::{bridge_waker, JPollResult, POLL_RESULT_CLASS};

verus! {

/// Name of the class that multi-value completion sources derive from.
pub const STREAM_CLASS: &'static str = "io/github/gedgygedgy/rust/stream/Stream";

impl<F, P> EnvView<F, P> {
    /// Whether `obj` is a stream item wrapper.
    pub open spec fn is_stream_poll(self, obj: JObject) -> bool {
        self.valid(obj) && self.data(obj) is StreamPoll
    }

    /// The item that the stream item wrapper `obj` wraps.
    pub open spec fn stream_item(self, obj: JObject) -> JObject
        recommends
            self.is_stream_poll(obj),
    {
        self.data(obj)->StreamPoll_0
    }
}

/// Wrapper for stream item wrappers: one item of a stream, which
/// [`get`](JStreamPoll::get) unwraps.
#[derive(Clone, Copy, Debug)]
pub struct JStreamPoll {
    pub internal: JObject,
}

impl JStreamPoll {
    /// Wraps the stream item wrapper `obj`. Rejected while an exception is
    /// pending; fails with `ClassNotFound` if the class of stream item
    /// wrappers is not loaded.
    pub fn from_env<F, P>(env: &Env<F, P>, obj: JObject) -> (r: Result<JStreamPoll, Error>)
        ensures
            match r {
                Ok(poll) => env@.pending is None && env@.class_named(STREAM_POLL_CLASS@) is Some
                    && poll.internal == obj,
                Err(e) => if env@.pending is Some {
                    e == Error::JavaException
                } else {
                    e == Error::ClassNotFound && env@.class_named(STREAM_POLL_CLASS@) is None
                },
            },
    {
        match env.find_class(STREAM_POLL_CLASS) {
            Ok(_) => Ok(JStreamPoll { internal: obj }),
            Err(e) => Err(e),
        }
    }

    /// The wrapped item.
    pub fn get<F, P>(&self, env: &Env<F, P>) -> (r: Result<JObject, Error>)
        ensures
            match env@.refusal(self.internal, env@.is_stream_poll(self.internal)) {
                Some(e) => r == Err::<JObject, Error>(e),
                None => r == Ok::<JObject, Error>(env@.stream_item(self.internal)),
            },
    {
        if env.exception_check() {
            return Err(Error::JavaException);
        }
        match env.index_of(self.internal) {
            Some(i) => match &env.heap[i].data {
                ObjectData::StreamPoll(item) => Ok(*item),
                _ => Err(Error::WrongObjectType),
            },
            None => Err(Error::NullPtr),
        }
    }
}

/// What a stream adapter makes of the object `held` that a poll result
/// held, on `env`, where no exception is pending: null is the end of the
/// stream, and any other object is unwrapped as a stream item wrapper.
pub open spec fn item_unwrapped<F, P>(env: EnvView<F, P>, held: JObject) -> Result<
    Poll<Option<JObject>>,
    Error,
> {
    if held.id == 0 {
        Ok(Poll::Ready(None))
    } else if env.class_named(STREAM_POLL_CLASS@) is None {
        Err(Error::ClassNotFound)
    } else {
        match env.refusal(held, env.is_stream_poll(held)) {
            Some(e) => Err(e),
            None => Ok(Poll::Ready(Some(env.stream_item(held)))),
        }
    }
}

/// Whether `r` and `after` are what a stream adapter makes of what the
/// completion source returned on `mid`: pending stays pending, an error
/// stays an error, and a poll result object is read. A poll result that
/// holds a failure raises it, and the poll fails with
/// `Error::JavaException`; one that holds an object gives the end of the
/// stream or the next item (see [`item_unwrapped`]).
pub open spec fn item_answered<F, P>(
    mid: EnvView<F, P>,
    found: Result<JObject, Error>,
    r: Result<Poll<Option<JObject>>, Error>,
    after: EnvView<F, P>,
) -> bool {
    match poll_answer(mid, found) {
        Err(e) => r == Err::<Poll<Option<JObject>>, Error>(e) && after == mid,
        Ok(Poll::Pending) => r == Ok::<Poll<Option<JObject>>, Error>(Poll::Pending) && after
            == mid,
        Ok(Poll::Ready(result)) => match mid.refusal(
            result.internal,
            mid.is_poll_result(result.internal),
        ) {
            Some(e) => r == Err::<Poll<Option<JObject>>, Error>(e) && after == mid,
            None => match mid.poll_result(result.internal).failure {
                Some(ex) => r == Err::<Poll<Option<JObject>>, Error>(Error::JavaException)
                    && after == mid.with_pending(Some(ex)),
                None => r == item_unwrapped(mid, mid.poll_result(result.internal).value) && after
                    == mid,
            },
        },
    }
}

/// Moves the error of a stream poll that failed into the item.
pub open spec fn surfaced_item(r: Result<Poll<Option<JObject>>, Error>) -> Poll<
    Option<Result<JObject, Error>>,
> {
    match r {
        Ok(Poll::Ready(Some(item))) => Poll::Ready(Some(Ok(item))),
        Ok(Poll::Ready(None)) => Poll::Ready(None),
        Ok(Poll::Pending) => Poll::Pending,
        Err(e) => Poll::Ready(Some(Err(e))),
    }
}

/// Wrapper for multi-value completion sources. Polling it polls the source
/// with a freshly wrapped waker for the polling task.
#[derive(Clone, Copy, Debug)]
pub struct JStream {
    pub internal: JObject,
    /// Whether the wakers handed to the source hold their capability in a
    /// slot (see [`crate::task::strict::waker`]) instead of giving it up on
    /// the first wake (see [`crate::task::waker`]).
    pub strict: bool,
}

impl JStream {
    /// Wraps the completion source `obj`. Polls hand it wakers that give
    /// their capability up on the first wake. Rejected while an exception is
    /// pending; fails with `ClassNotFound` if the class of completion
    /// sources is not loaded.
    pub fn from_env<F, P>(env: &Env<F, P>, obj: JObject) -> (r: Result<JStream, Error>)
        ensures
            match r {
                Ok(stream) => env@.pending is None && env@.class_named(STREAM_CLASS@) is Some
                    && stream == (JStream { internal: obj, strict: false }),
                Err(e) => if env@.pending is Some {
                    e == Error::JavaException
                } else {
                    e == Error::ClassNotFound && env@.class_named(STREAM_CLASS@) is None
                },
            },
    {
        match env.find_class(STREAM_CLASS) {
            Ok(_) => Ok(JStream { internal: obj, strict: false }),
            Err(e) => Err(e),
        }
    }

    /// The same wrapper, whose polls hand the source wakers that hold their
    /// capability in a slot.
    pub fn with_strict_wakers(self) -> (r: JStream)
        ensures
            r == (JStream { internal: self.internal, strict: true }),
    {
        JStream { internal: self.internal, strict: true }
    }

    /// The wrapped object.
    pub fn as_obj(&self) -> (r: JObject)
        ensures
            r == self.internal,
    {
        self.internal
    }

    /// Polls the source with the managed waker `waker`: pending if the
    /// source returns null, which means that it has stored the waker and
    /// will wake it; else ready with the next item, or with `None` at the
    /// end of the stream.
    pub fn j_poll_next<F: NativeFn<P>, P: PanicPayload>(
        &self,
        env: &mut Env<F, P>,
        waker: JObject,
    ) -> (r: Result<Poll<Option<JObject>>, Error>)
        ensures
            exists|found: Result<JObject, Error>, mid: EnvView<F, P>| #[trigger]
                stream_polled(old(env)@, self.internal, waker, found, mid) && item_answered(
                    mid,
                    found,
                    r,
                    final(env)@,
                ),
    {
        let found = env.poll_stream(self.internal, waker);
        let ghost mid = env@;
        let result = match found {
            Ok(result) => result,
            Err(e) => {
                return Err(e);
            },
        };
        if result.is_null() {
            return Ok(Poll::Pending);
        }
        let poll = match JPollResult::from_env(env, result) {
            Ok(poll) => poll,
            Err(e) => {
                return Err(e);
            },
        };
        let held = match poll.get(env) {
            Ok(held) => held,
            Err(e) => {
                return Err(e);
            },
        };
        if held.is_null() {
            return Ok(Poll::Ready(None));
        }
        let wrapper = match JStreamPoll::from_env(env, held) {
            Ok(wrapper) => wrapper,
            Err(e) => {
                return Err(e);
            },
        };
        match wrapper.get(env) {
            Ok(item) => Ok(Poll::Ready(Some(item))),
            Err(e) => Err(e),
        }
    }

    /// Polls the source on behalf of the task that is polled in `context`.
    /// The error, if any, is that of wrapping the waker or of the poll.
    pub fn poll_next_internal<F: NativeFn<P>, P: PanicPayload>(
        &self,
        env: &mut Env<F, P>,
        context: &mut Context<'_>,
    ) -> (r: Result<Poll<Option<JObject>>, Error>)
        ensures
            old(env)@.pending is Some ==> r == Err::<Poll<Option<JObject>>, Error>(
                Error::JavaException,
            ) && *final(env) == *old(env),
            old(env)@.pending is None && !can_wrap_waker(old(env)@, self.strict) ==> r == Err::<
                Poll<Option<JObject>>,
                Error,
            >(Error::ClassNotFound) && *final(env) == *old(env),
            old(env)@.pending is None && can_wrap_waker(old(env)@, self.strict) ==> exists|
                found: Result<JObject, Error>,
                mid: EnvView<F, P>,
            | #[trigger]
                stream_polled(
                    with_waker(old(env)@, self.strict, polling_capability(&*old(context))),
                    self.internal,
                    waker_handle(old(env)@, self.strict),
                    found,
                    mid,
                ) && item_answered(mid, found, r, final(env)@),
    {
        let waker = match wrap_waker(env, self.strict, context) {
            Ok(waker) => waker,
            Err(e) => {
                return Err(e);
            },
        };
        self.j_poll_next(env, waker)
    }

    /// Polls the source on behalf of the task that is polled in `context`:
    /// pending if the source has nothing to deliver; else ready with the
    /// next item, with `None` at the end of the stream, or with the error
    /// that kept the poll from giving either.
    pub fn poll_next<F: NativeFn<P>, P: PanicPayload>(
        &self,
        env: &mut Env<F, P>,
        context: &mut Context<'_>,
    ) -> (r: Poll<Option<Result<JObject, Error>>>)
        ensures
            old(env)@.pending is Some ==> r == Poll::Ready(
                Some(Err::<JObject, Error>(Error::JavaException)),
            ) && *final(env) == *old(env),
            old(env)@.pending is None && !can_wrap_waker(old(env)@, self.strict) ==> r
                == Poll::Ready(Some(Err::<JObject, Error>(Error::ClassNotFound))) && *final(env)
                == *old(env),
            old(env)@.pending is None && can_wrap_waker(old(env)@, self.strict) ==> exists|
                found: Result<JObject, Error>,
                mid: EnvView<F, P>,
                answer: Result<Poll<Option<JObject>>, Error>,
            | #[trigger]
                stream_polled(
                    with_waker(old(env)@, self.strict, polling_capability(&*old(context))),
                    self.internal,
                    waker_handle(old(env)@, self.strict),
                    found,
                    mid,
                ) && #[trigger] item_answered(mid, found, answer, final(env)@) && r
                    == surfaced_item(answer),
    {
        match self.poll_next_internal(env, context) {
            Ok(Poll::Ready(Some(item))) => Poll::Ready(Some(Ok(item))),
            Ok(Poll::Ready(None)) => Poll::Ready(None),
            Ok(Poll::Pending) => Poll::Pending,
            Err(e) => Poll::Ready(Some(Err(e))),
        }
    }
}

/// The result of a stream poll with the item behind a persistent handle.
pub open spec fn persistent_item(r: Result<Poll<Option<JObject>>, Error>) -> Result<
    Poll<Option<Result<GlobalRef, Error>>>,
    Error,
> {
    match r {
        Ok(Poll::Ready(Some(item))) => Ok(Poll::Ready(Some(Ok(GlobalRef { obj: item })))),
        Ok(Poll::Ready(None)) => Ok(Poll::Ready(None)),
        Ok(Poll::Pending) => Ok(Poll::Pending),
        Err(e) => Err(e),
    }
}

/// Moves the error of a stream poll that could not be made into the item.
pub open spec fn flattened_item(r: Result<Poll<Option<Result<GlobalRef, Error>>>, Error>) -> Poll<
    Option<Result<GlobalRef, Error>>,
> {
    match r {
        Ok(poll) => poll,
        Err(e) => Poll::Ready(Some(Err(e))),
    }
}

/// A [`JStream`] that can move between threads: it holds a persistent
/// handle to the completion source and the capability to get access to the
/// runtime, which it uses anew on every poll.
#[derive(Clone, Copy, Debug)]
pub struct JavaStream {
    pub internal: GlobalRef,
    pub vm: JavaVM,
    /// See [`JStream::strict`].
    pub strict: bool,
}

impl JavaStream {
    /// Promotes `stream` to its thread-transferable form. Rejected while an
    /// exception is pending.
    pub fn try_from<F, P>(env: &Env<F, P>, stream: JStream) -> (r: Result<JavaStream, Error>)
        ensures
            match env@.pending {
                Some(_) => r == Err::<JavaStream, Error>(Error::JavaException),
                None => r == Ok::<JavaStream, Error>(
                    JavaStream {
                        internal: GlobalRef { obj: stream.internal },
                        vm: JavaVM { id: env@.vm },
                        strict: stream.strict,
                    },
                ),
            },
    {
        let internal = match env.new_global_ref(stream.internal) {
            Ok(internal) => internal,
            Err(e) => {
                return Err(e);
            },
        };
        let vm = match env.get_java_vm() {
            Ok(vm) => vm,
            Err(e) => {
                return Err(e);
            },
        };
        Ok(JavaStream { internal, vm, strict: stream.strict })
    }

    /// Polls the source on behalf of the task that is polled in `context`,
    /// through `env`. Access is acquired first: if `env` is not the runtime
    /// that the stream belongs to, the poll fails with `ThreadDetached` and
    /// nothing else happens. After that the poll is that of the scoped form,
    /// wrapped anew (see [`JStream::from_env`] and
    /// [`JStream::poll_next_internal`]), and an item is returned behind a
    /// persistent handle.
    pub fn poll_next_internal<F: NativeFn<P>, P: PanicPayload>(
        &self,
        env: &mut Env<F, P>,
        context: &mut Context<'_>,
    ) -> (r: Result<Poll<Option<Result<GlobalRef, Error>>>, Error>)
        ensures
            old(env)@.vm != self.vm.id ==> r == Err::<
                Poll<Option<Result<GlobalRef, Error>>>,
                Error,
            >(Error::ThreadDetached) && *final(env) == *old(env),
            old(env)@.vm == self.vm.id && old(env)@.pending is Some ==> r == Err::<
                Poll<Option<Result<GlobalRef, Error>>>,
                Error,
            >(Error::JavaException) && *final(env) == *old(env),
            old(env)@.vm == self.vm.id && old(env)@.pending is None && !(old(env)@.class_named(
                STREAM_CLASS@,
            ) is Some && can_wrap_waker(old(env)@, self.strict)) ==> r == Err::<
                Poll<Option<Result<GlobalRef, Error>>>,
                Error,
            >(Error::ClassNotFound) && *final(env) == *old(env),
            old(env)@.vm == self.vm.id && old(env)@.pending is None && old(env)@.class_named(
                STREAM_CLASS@,
            ) is Some && can_wrap_waker(old(env)@, self.strict) ==> exists|
                found: Result<JObject, Error>,
                mid: EnvView<F, P>,
                answer: Result<Poll<Option<JObject>>, Error>,
            | #[trigger]
                stream_polled(
                    with_waker(old(env)@, self.strict, polling_capability(&*old(context))),
                    self.internal.obj,
                    waker_handle(old(env)@, self.strict),
                    found,
                    mid,
                ) && #[trigger] item_answered(mid, found, answer, final(env)@) && r
                    == persistent_item(answer),
    {
        match self.vm.acquire(env) {
            Ok(()) => {},
            Err(e) => {
                return Err(e);
            },
        }
        let stream = match JStream::from_env(env, self.internal.as_obj()) {
            Ok(stream) => JStream { internal: stream.internal, strict: self.strict },
            Err(e) => {
                return Err(e);
            },
        };
        let answer = stream.poll_next_internal(env, context);
        match answer {
            Ok(Poll::Ready(Some(item))) => {
                // Items are delivered with no exception pending.
                match env.new_global_ref(item) {
                    Ok(global) => Ok(Poll::Ready(Some(Ok(global)))),
                    Err(e) => Ok(Poll::Ready(Some(Err(e)))),
                }
            },
            Ok(Poll::Ready(None)) => Ok(Poll::Ready(None)),
            Ok(Poll::Pending) => Ok(Poll::Pending),
            Err(e) => Err(e),
        }
    }

    /// Polls the source on behalf of the task that is polled in `context`,
    /// through `env`: pending if the source has nothing to deliver; else
    /// ready with a persistent handle to the next item, with `None` at the
    /// end of the stream, or with the error that kept the poll from giving
    /// either. See [`poll_next_internal`](JavaStream::poll_next_internal).
    pub fn poll_next<F: NativeFn<P>, P: PanicPayload>(
        &self,
        env: &mut Env<F, P>,
        context: &mut Context<'_>,
    ) -> (r: Poll<Option<Result<GlobalRef, Error>>>)
        ensures
            old(env)@.vm != self.vm.id ==> r == Poll::Ready(
                Some(Err::<GlobalRef, Error>(Error::ThreadDetached)),
            ) && *final(env) == *old(env),
            old(env)@.vm == self.vm.id && old(env)@.pending is Some ==> r == Poll::Ready(
                Some(Err::<GlobalRef, Error>(Error::JavaException)),
            ) && *final(env) == *old(env),
            old(env)@.vm == self.vm.id && old(env)@.pending is None && !(old(env)@.class_named(
                STREAM_CLASS@,
            ) is Some && can_wrap_waker(old(env)@, self.strict)) ==> r == Poll::Ready(
                Some(Err::<GlobalRef, Error>(Error::ClassNotFound)),
            ) && *final(env) == *old(env),
            old(env)@.vm == self.vm.id && old(env)@.pending is None && old(env)@.class_named(
                STREAM_CLASS@,
            ) is Some && can_wrap_waker(old(env)@, self.strict) ==> exists|
                found: Result<JObject, Error>,
                mid: EnvView<F, P>,
                answer: Result<Poll<Option<JObject>>, Error>,
            | #[trigger]
                stream_polled(
                    with_waker(old(env)@, self.strict, polling_capability(&*old(context))),
                    self.internal.obj,
                    waker_handle(old(env)@, self.strict),
                    found,
                    mid,
                ) && #[trigger] item_answered(mid, found, answer, final(env)@) && r
                    == flattened_item(persistent_item(answer)),
    {
        match self.poll_next_internal(env, context) {
            Ok(result) => result,
            Err(e) => Poll::Ready(Some(Err(e))),
        }
    }
}

/// An item that the producer adds to an empty stream whose stored waker is
/// one of the bridge's is what the next poll delivers, whichever of the
/// bridge's wakers the poll brings.
pub proof fn law_pushed_item_is_delivered<F: NativeFn<P>, P: PanicPayload>(
    env: EnvView<F, P>,
    source: JObject,
    item: JObject,
    pushed: Result<Option<Waker>, Error>,
    mid: EnvView<F, P>,
    waker: JObject,
    found: Result<JObject, Error>,
    polled: EnvView<F, P>,
    r: Result<Poll<Option<JObject>>, Error>,
    after: EnvView<F, P>,
)
    requires
        env.pending is None,
        env.heap.len() + 2 < u64::MAX,
        env.is_stream(source),
        env.stream(source).queue.len() == 0,
        env.class_named(POLL_RESULT_CLASS@) is Some,
        env.class_named(STREAM_POLL_CLASS@) is Some,
        bridge_waker(env, env.stream(source).waker),
        stream_produced(
            env,
            source,
            StreamView { queue: env.stream(source).queue.push(item), ..env.stream(source) },
            pushed,
            mid,
        ),
        pushed is Ok,
        bridge_waker(mid, waker),
        stream_polled(mid, source, waker, found, polled),
        item_answered(polled, found, r, after),
    ensures
        r == Ok::<Poll<Option<JObject>>, Error>(Poll::Ready(Some(item))),
        after.is_stream(source),
        after.stream(source).queue.len() == 0,
{
}

/// A stream that the producer has finished, with nothing queued, ends: the
/// next poll is ready with the end of the stream.
pub proof fn law_finished_stream_ends<F: NativeFn<P>, P: PanicPayload>(
    env: EnvView<F, P>,
    source: JObject,
    finished: Result<Option<Waker>, Error>,
    mid: EnvView<F, P>,
    waker: JObject,
    found: Result<JObject, Error>,
    polled: EnvView<F, P>,
    r: Result<Poll<Option<JObject>>, Error>,
    after: EnvView<F, P>,
)
    requires
        env.pending is None,
        env.heap.len() + 1 < u64::MAX,
        env.is_stream(source),
        env.stream(source).queue.len() == 0,
        env.class_named(POLL_RESULT_CLASS@) is Some,
        bridge_waker(env, env.stream(source).waker),
        stream_produced(
            env,
            source,
            StreamView { finished: true, ..env.stream(source) },
            finished,
            mid,
        ),
        finished is Ok,
        bridge_waker(mid, waker),
        stream_polled(mid, source, waker, found, polled),
        item_answered(polled, found, r, after),
    ensures
        r == Ok::<Poll<Option<JObject>>, Error>(Poll::Ready(None)),
{
}

/// A stream delivers its items oldest first: a poll of a source with
/// queued items, whichever of the bridge's wakers it brings, is ready with
/// the item at the head of the queue and leaves the rest queued.
pub proof fn law_poll_delivers_the_oldest<F: NativeFn<P>, P: PanicPayload>(
    env: EnvView<F, P>,
    source: JObject,
    waker: JObject,
    found: Result<JObject, Error>,
    polled: EnvView<F, P>,
    r: Result<Poll<Option<JObject>>, Error>,
    after: EnvView<F, P>,
)
    requires
        env.pending is None,
        env.heap.len() + 2 < u64::MAX,
        env.is_stream(source),
        env.stream(source).queue.len() > 0,
        env.class_named(POLL_RESULT_CLASS@) is Some,
        env.class_named(STREAM_POLL_CLASS@) is Some,
        bridge_waker(env, waker),
        stream_polled(env, source, waker, found, polled),
        item_answered(polled, found, r, after),
    ensures
        r == Ok::<Poll<Option<JObject>>, Error>(Poll::Ready(Some(env.stream(source).queue[0]))),
        after.is_stream(source),
        after.stream(source).queue == env.stream(source).queue.drop_first(),
        after.stream(source).finished == env.stream(source).finished,
{
}

/// A wakeup is not lost. A poll that finds a fresh stream with nothing to
/// deliver is pending and leaves the waker that it made for `capability` in
/// the source. When the producer then adds an item or finishes the stream,
/// that step returns, to be signalled, what the waker's first wake signals:
/// `capability`, or a second handle to it (see
/// [`first_signal`](crate::future::first_signal)).
pub proof fn law_production_signals_the_polling_task<F: NativeFn<P>, P: PanicPayload>(
    env: EnvView<F, P>,
    source: JObject,
    strict: bool,
    capability: Waker,
    found: Result<JObject, Error>,
    polled: EnvView<F, P>,
    state: StreamView,
    produced: Result<Option<Waker>, Error>,
    after: EnvView<F, P>,
)
    requires
        env.pending is None,
        env.heap.len() + 2 < u64::MAX,
        can_wrap_waker(env, strict),
        env.is_stream(source),
        env.stream(source).queue.len() == 0,
        !env.stream(source).finished,
        env.stream(source).waker.id == 0,
        stream_polled(
            with_waker(env, strict, capability),
            source,
            waker_handle(env, strict),
            found,
            polled,
        ),
        state.waker == waker_handle(env, strict),
        stream_produced(polled, source, state, produced, after),
    ensures
        poll_answer(polled, found) == Ok::<Poll<JPollResult>, Error>(Poll::Pending),
        polled.stream(source).waker == waker_handle(env, strict),
        produced == Ok::<Option<Waker>, Error>(Some(first_signal(strict, capability))),
        after.pending is None,
{
    let made = with_waker(env, strict, capability);
    let handle = waker_handle(env, strict);
    assert(made.is_stream(source));
    assert(made.stream(source) == env.stream(source));
    assert(polled == made.with_stream(source, StreamView { waker: handle, ..made.stream(source) }));
    assert(polled.is_waker(handle));
    let stored = polled.with_stream(source, state);
    assert(stored.is_waker(handle));
    assert(stored.waker(handle) == made.waker(handle));
    if !strict {
        let runnable = env.next_handle();
        assert(stored.is_closure(runnable));
        assert(stored.closure(runnable) == armed(
            CallContract::Once,
            false,
            env.thread,
            Action::<F>::Wake(capability),
        ));
    }
}

} // verus!
