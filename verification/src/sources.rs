//! The completion sources of the managed side: a single-value source that
//! its producer completes or fails, and a queue-backed multi-value source.
//! Both store the waker of a poll that found nothing and signal it when the
//! producer acts.
use vstd::prelude::*;
use std::task::Waker;
use crate::env::{fresh_throwable, lemma_heap_update, Env, EnvView};
use crate::errors::Error;
use crate::exceptions::PanicPayload;
use crate::objects::{
    FutureSource, JObject, JThrowable, ObjectData, ObjectView, PollData, StreamSource, StreamView,
    ThrowableData, ThrowableView,
};
use crate::ops::NativeFn;
use crate::task::{waker_closed, woken_up, POLL_RESULT_CLASS};

verus! {

/// Name of the class of single-value completion sources.
pub const SIMPLE_FUTURE_CLASS: &'static str = "io/github/gedgygedgy/rust/future/SimpleFuture";

/// Name of the class of queue-backed multi-value completion sources.
pub const QUEUE_STREAM_CLASS: &'static str = "io/github/gedgygedgy/rust/stream/QueueStream";

/// Name of the class of stream item wrappers.
pub const STREAM_POLL_CLASS: &'static str = "io/github/gedgygedgy/rust/stream/StreamPoll";

/// Name of the class of the exception that wraps the cause of a failed task.
pub const FUTURE_EXCEPTION_CLASS: &'static str =
    "io/github/gedgygedgy/rust/future/FutureException";

impl<F, P> EnvView<F, P> {
    /// Whether `obj` is a single-value completion source.
    pub open spec fn is_future(self, obj: JObject) -> bool {
        self.valid(obj) && self.data(obj) is Future
    }

    /// The state of the single-value completion source `obj`.
    pub open spec fn future(self, obj: JObject) -> FutureSource
        recommends
            self.is_future(obj),
    {
        self.data(obj)->Future_0
    }

    /// This environment with `state` as the state of the source `obj`.
    pub open spec fn with_future(self, obj: JObject, state: FutureSource) -> EnvView<F, P> {
        self.with_data(obj, ObjectView::Future(state))
    }

    /// Whether `obj` is a multi-value completion source.
    pub open spec fn is_stream(self, obj: JObject) -> bool {
        self.valid(obj) && self.data(obj) is Stream
    }

    /// The state of the multi-value completion source `obj`.
    pub open spec fn stream(self, obj: JObject) -> StreamView
        recommends
            self.is_stream(obj),
    {
        self.data(obj)->Stream_0
    }

    /// This environment with `state` as the state of the source `obj`.
    pub open spec fn with_stream(self, obj: JObject, state: StreamView) -> EnvView<F, P> {
        self.with_data(obj, ObjectView::Stream(state))
    }
}

/// Whether `r` and `after` are what a completion source's giving up the
/// waker `waker` comes to on `before`: a null handle is nothing to give up,
/// any other is closed.
pub open spec fn discarded<F: NativeFn<P>, P: PanicPayload>(
    before: EnvView<F, P>,
    waker: JObject,
    r: Result<(), Error>,
    after: EnvView<F, P>,
) -> bool {
    if waker.id == 0 {
        r == Ok::<(), Error>(()) && after == before
    } else {
        waker_closed(before, waker, r, after)
    }
}

/// Whether `r` and `after` are what a completion source's waking the waker
/// `waker` comes to on `before`: a null handle is nothing to wake and gives
/// nothing to signal, any other is woken, which gives the capability to
/// signal.
pub open spec fn notified<F, P>(
    before: EnvView<F, P>,
    waker: JObject,
    r: Result<Option<Waker>, Error>,
    after: EnvView<F, P>,
) -> bool {
    if waker.id == 0 {
        r == Ok::<Option<Waker>, Error>(None) && after == before
    } else {
        woken_up(before, waker, r, after)
    }
}

/// The result of a poll that found `found`, where giving up the waker that
/// the source has no use for ended with `r`.
pub open spec fn delivered(found: JObject, r: Result<(), Error>) -> Result<JObject, Error> {
    match r {
        Ok(()) => Ok(found),
        Err(e) => Err(e),
    }
}

/// Whether `r` and `after` are what polling the single-value source `source`
/// with the waker `waker` comes to on `before`. A completed source gives up
/// the waker and returns its poll result object. A source that is not
/// complete stores the waker in place of the one it had, which it gives up,
/// and returns null.
pub open spec fn future_polled<F: NativeFn<P>, P: PanicPayload>(
    before: EnvView<F, P>,
    source: JObject,
    waker: JObject,
    r: Result<JObject, Error>,
    after: EnvView<F, P>,
) -> bool {
    match before.refusal(source, before.is_future(source)) {
        Some(e) => r == Err::<JObject, Error>(e) && after == before,
        None => match before.future(source).result {
            Some(result) => exists|given_up: Result<(), Error>| #[trigger]
                discarded(before, waker, given_up, after) && r == delivered(result, given_up),
            None => exists|given_up: Result<(), Error>| #[trigger]
                discarded(
                    before.with_future(source, FutureSource { waker, result: None }),
                    before.future(source).waker,
                    given_up,
                    after,
                ) && r == delivered(JObject { id: 0 }, given_up),
        },
    }
}

/// The managed side after the incomplete single-value source `source` was
/// completed with the outcome `outcome` and before its stored waker is
/// woken: a poll result object holding the outcome is new on the heap,
/// and the source refers to it. `class` is the index of the class of poll
/// results.
pub open spec fn future_settled<F, P>(
    before: EnvView<F, P>,
    source: JObject,
    class: int,
    outcome: PollData,
) -> EnvView<F, P> {
    before.with_new(class, ObjectView::PollResult(outcome)).with_future(
        source,
        FutureSource { result: Some(before.next_handle()), ..before.future(source) },
    )
}

/// Whether `r` and `after` are what completing the single-value source
/// `source` with the outcome `outcome` comes to on `before`. The first
/// completion counts: completing a complete source changes nothing.
/// Otherwise the outcome is stored and the stored waker, if any, is woken:
/// the result is the capability that the caller is to signal.
pub open spec fn future_completed<F, P>(
    before: EnvView<F, P>,
    source: JObject,
    outcome: PollData,
    r: Result<Option<Waker>, Error>,
    after: EnvView<F, P>,
) -> bool {
    match before.refusal(source, before.is_future(source)) {
        Some(e) => r == Err::<Option<Waker>, Error>(e) && after == before,
        None => if before.future(source).result is Some {
            r == Ok::<Option<Waker>, Error>(None) && after == before
        } else {
            match before.class_named(POLL_RESULT_CLASS@) {
                None => r == Err::<Option<Waker>, Error>(Error::ClassNotFound) && after == before,
                Some(c) => notified(
                    future_settled(before, source, c, outcome),
                    before.future(source).waker,
                    r,
                    after,
                ),
            }
        },
    }
}

/// Creates a single-value completion source that is not complete and holds
/// no waker. Rejected while an exception is pending; fails with
/// `ClassNotFound` if its class is not loaded.
pub fn new_future<F, P>(env: &mut Env<F, P>) -> (r: Result<JObject, Error>)
    ensures
        match r {
            Ok(obj) => {
                &&& old(env)@.pending is None
                &&& old(env)@.class_named(SIMPLE_FUTURE_CLASS@) matches Some(c)
                &&& obj.id == old(env)@.heap.len() + 1
                &&& final(env)@ == old(env)@.with_new(
                    c,
                    ObjectView::Future(FutureSource { waker: JObject { id: 0 }, result: None }),
                )
            },
            Err(e) => {
                &&& *final(env) == *old(env)
                &&& if old(env)@.pending is Some {
                    e == Error::JavaException
                } else {
                    e == Error::ClassNotFound && old(env)@.class_named(SIMPLE_FUTURE_CLASS@)
                        is None
                }
            },
        },
{
    let c = match env.find_class(SIMPLE_FUTURE_CLASS) {
        Ok(c) => c,
        Err(e) => {
            return Err(e);
        },
    };
    Ok(
        env.allocate(
            c,
            ObjectData::Future(FutureSource { waker: JObject { id: 0 }, result: None }),
        ),
    )
}

impl<F: NativeFn<P>, P: PanicPayload> Env<F, P> {
    /// Gives up a waker that a completion source has no more use for.
    pub fn discard(&mut self, waker: JObject) -> (r: Result<(), Error>)
        ensures
            discarded(old(self)@, waker, r, final(self)@),
    {
        if waker.id == 0 {
            Ok(())
        } else {
            self.close_waker(waker)
        }
    }

    /// Wakes the waker that a completion source has stored. Returns the
    /// capability that the caller is to signal, if there is one.
    pub fn notify(&mut self, waker: JObject) -> (r: Result<Option<Waker>, Error>)
        ensures
            notified(old(self)@, waker, r, final(self)@),
    {
        if waker.id == 0 {
            Ok(None)
        } else {
            self.wake(waker)
        }
    }

    /// Polls the single-value completion source `source`: returns its poll
    /// result object if it is complete, and null, after storing `waker`, if
    /// it is not.
    pub fn poll_future(&mut self, source: JObject, waker: JObject) -> (r: Result<JObject, Error>)
        ensures
            future_polled(old(self)@, source, waker, r, final(self)@),
    {
        if self.exception_check() {
            return Err(Error::JavaException);
        }
        let i = match self.index_of(source) {
            Some(i) => i,
            None => {
                return Err(Error::NullPtr);
            },
        };
        let (result, stored) = match &self.heap[i].data {
            ObjectData::Future(state) => (state.result, state.waker),
            _ => {
                return Err(Error::WrongObjectType);
            },
        };
        match result {
            Some(result) => match self.discard(waker) {
                Ok(()) => Ok(result),
                Err(e) => Err(e),
            },
            None => {
                let ghost before = self.heap@;
                match &mut self.heap[i].data {
                    ObjectData::Future(state) => {
                        state.waker = waker;
                    },
                    _ => {},
                }
                proof {
                    lemma_heap_update(before, self.heap@, i as int);
                }
                match self.discard(stored) {
                    Ok(()) => Ok(JObject { id: 0 }),
                    Err(e) => Err(e),
                }
            },
        }
    }

    /// Completes the single-value completion source `source` with `outcome`
    /// and wakes the waker it has stored. Returns the capability that the
    /// caller is to signal, if there is one.
    pub fn settle_future(&mut self, source: JObject, outcome: PollData) -> (r: Result<
        Option<Waker>,
        Error,
    >)
        ensures
            future_completed(old(self)@, source, outcome, r, final(self)@),
    {
        if self.exception_check() {
            return Err(Error::JavaException);
        }
        let i = match self.index_of(source) {
            Some(i) => i,
            None => {
                return Err(Error::NullPtr);
            },
        };
        let stored = match &self.heap[i].data {
            ObjectData::Future(state) => match state.result {
                Some(_) => {
                    return Ok(None);
                },
                None => state.waker,
            },
            _ => {
                return Err(Error::WrongObjectType);
            },
        };
        let c = match self.find_class(POLL_RESULT_CLASS) {
            Ok(c) => c,
            Err(e) => {
                return Err(e);
            },
        };
        let result = self.allocate(c, ObjectData::PollResult(outcome));
        let ghost before = self.heap@;
        match &mut self.heap[i].data {
            ObjectData::Future(state) => {
                state.result = Some(result);
            },
            _ => {},
        }
        proof {
            lemma_heap_update(before, self.heap@, i as int);
        }
        self.notify(stored)
    }

    /// Completes the single-value completion source `source` with the value
    /// `value`. Returns the capability that the caller is to signal, if
    /// there is one.
    pub fn complete_future(&mut self, source: JObject, value: JObject) -> (r: Result<
        Option<Waker>,
        Error,
    >)
        ensures
            future_completed(
                old(self)@,
                source,
                PollData { value, failure: None },
                r,
                final(self)@,
            ),
    {
        self.settle_future(source, PollData { value, failure: None })
    }
}

/// The state of the exception that wraps `cause` as the failure of a task.
pub open spec fn task_failure<P>(cause: JThrowable) -> ThrowableView<P> {
    ThrowableView { cause: cause.obj, ..fresh_throwable(None) }
}

/// Whether `r` and `after` are what failing the single-value source `source`
/// with the exception `cause` comes to on `before`: an exception that wraps
/// `cause` is constructed, and the source is completed with it as its
/// failure.
pub open spec fn future_failed<F, P>(
    before: EnvView<F, P>,
    source: JObject,
    cause: JThrowable,
    r: Result<Option<Waker>, Error>,
    after: EnvView<F, P>,
) -> bool {
    if before.pending is Some {
        r == Err::<Option<Waker>, Error>(Error::JavaException) && after == before
    } else {
        match before.class_named(FUTURE_EXCEPTION_CLASS@) {
            None => r == Err::<Option<Waker>, Error>(Error::ClassNotFound) && after == before,
            Some(c) => future_completed(
                before.with_new(c, ObjectView::Throwable(task_failure(cause))),
                source,
                PollData {
                    value: JObject { id: 0 },
                    failure: Some(JThrowable { obj: before.next_handle() }),
                },
                r,
                after,
            ),
        }
    }
}

/// Whether `r` and `after` are what polling the multi-value source `source`
/// with the waker `waker` comes to on `before`. A source with queued items
/// takes the oldest out of the queue, wraps it in a new stream item object
/// and returns a new poll result object that holds the wrapper. A finished
/// source with nothing queued returns a new poll result object that holds
/// null. In both cases the waker is given up. Any other source stores the
/// waker in place of the one it had, which it gives up, and returns null.
pub open spec fn stream_polled<F: NativeFn<P>, P: PanicPayload>(
    before: EnvView<F, P>,
    source: JObject,
    waker: JObject,
    r: Result<JObject, Error>,
    after: EnvView<F, P>,
) -> bool {
    match before.refusal(source, before.is_stream(source)) {
        Some(e) => r == Err::<JObject, Error>(e) && after == before,
        None => {
            let state = before.stream(source);
            if state.queue.len() > 0 {
                match (before.class_named(STREAM_POLL_CLASS@), before.class_named(POLL_RESULT_CLASS@)) {
                    (Some(item_class), Some(result_class)) => {
                        let taken = before.with_stream(
                            source,
                            StreamView { queue: state.queue.drop_first(), ..state },
                        );
                        let wrapped = taken.with_new(
                            item_class,
                            ObjectView::StreamPoll(state.queue[0]),
                        );
                        let answered = wrapped.with_new(
                            result_class,
                            ObjectView::PollResult(
                                PollData { value: taken.next_handle(), failure: None },
                            ),
                        );
                        exists|given_up: Result<(), Error>| #[trigger]
                            discarded(answered, waker, given_up, after) && r == delivered(
                                wrapped.next_handle(),
                                given_up,
                            )
                    },
                    _ => r == Err::<JObject, Error>(Error::ClassNotFound) && after == before,
                }
            } else if state.finished {
                match before.class_named(POLL_RESULT_CLASS@) {
                    Some(result_class) => {
                        let answered = before.with_new(
                            result_class,
                            ObjectView::PollResult(
                                PollData { value: JObject { id: 0 }, failure: None },
                            ),
                        );
                        exists|given_up: Result<(), Error>| #[trigger]
                            discarded(answered, waker, given_up, after) && r == delivered(
                                before.next_handle(),
                                given_up,
                            )
                    },
                    None => r == Err::<JObject, Error>(Error::ClassNotFound) && after == before,
                }
            } else {
                exists|given_up: Result<(), Error>| #[trigger]
                    discarded(
                        before.with_stream(source, StreamView { waker, ..state }),
                        state.waker,
                        given_up,
                        after,
                    ) && r == delivered(JObject { id: 0 }, given_up)
            }
        },
    }
}

/// Whether `r` and `after` are what the producer's changing the state of
/// the multi-value source `source` to `state` comes to on `before`: the
/// state is stored and the stored waker, if any, is woken: the result is the
/// capability that the caller is to signal.
pub open spec fn stream_produced<F, P>(
    before: EnvView<F, P>,
    source: JObject,
    state: StreamView,
    r: Result<Option<Waker>, Error>,
    after: EnvView<F, P>,
) -> bool {
    match before.refusal(source, before.is_stream(source)) {
        Some(e) => r == Err::<Option<Waker>, Error>(e) && after == before,
        None => notified(before.with_stream(source, state), state.waker, r, after),
    }
}

/// Creates a multi-value completion source with an empty queue that is not
/// finished and holds no waker. Rejected while an exception is pending;
/// fails with `ClassNotFound` if its class is not loaded.
pub fn new_stream<F, P>(env: &mut Env<F, P>) -> (r: Result<JObject, Error>)
    ensures
        match r {
            Ok(obj) => {
                &&& old(env)@.pending is None
                &&& old(env)@.class_named(QUEUE_STREAM_CLASS@) matches Some(c)
                &&& obj.id == old(env)@.heap.len() + 1
                &&& final(env)@ == old(env)@.with_new(
                    c,
                    ObjectView::Stream(
                        StreamView {
                            queue: Seq::empty(),
                            finished: false,
                            waker: JObject { id: 0 },
                        },
                    ),
                )
            },
            Err(e) => {
                &&& *final(env) == *old(env)
                &&& if old(env)@.pending is Some {
                    e == Error::JavaException
                } else {
                    e == Error::ClassNotFound && old(env)@.class_named(QUEUE_STREAM_CLASS@)
                        is None
                }
            },
        },
{
    let c = match env.find_class(QUEUE_STREAM_CLASS) {
        Ok(c) => c,
        Err(e) => {
            return Err(e);
        },
    };
    let state = StreamSource { queue: Vec::new(), finished: false, waker: JObject { id: 0 } };
    Ok(env.allocate(c, ObjectData::Stream(state)))
}

impl<F: NativeFn<P>, P: PanicPayload> Env<F, P> {
    /// Fails the single-value completion source `source` with the exception
    /// `cause`. Returns the capability that the caller is to signal, if
    /// there is one.
    pub fn fail_future(&mut self, source: JObject, cause: JThrowable) -> (r: Result<
        Option<Waker>,
        Error,
    >)
        ensures
            future_failed(old(self)@, source, cause, r, final(self)@),
    {
        let c = match self.find_class(FUTURE_EXCEPTION_CLASS) {
            Ok(c) => c,
            Err(e) => {
                return Err(e);
            },
        };
        let state = ThrowableData {
            message: None,
            cause: cause.obj,
            suppressed: Vec::new(),
            payload: None,
        };
        let wrapper = self.allocate(c, ObjectData::Throwable(state));
        self.settle_future(
            source,
            PollData { value: JObject { id: 0 }, failure: Some(JThrowable { obj: wrapper }) },
        )
    }

    /// Polls the multi-value completion source `source`: returns a poll
    /// result object if there is an item or the end of the stream to deliver,
    /// and null, after storing `waker`, if there is not.
    pub fn poll_stream(&mut self, source: JObject, waker: JObject) -> (r: Result<JObject, Error>)
        ensures
            stream_polled(old(self)@, source, waker, r, final(self)@),
    {
        if self.exception_check() {
            return Err(Error::JavaException);
        }
        let i = match self.index_of(source) {
            Some(i) => i,
            None => {
                return Err(Error::NullPtr);
            },
        };
        let (queued, finished, stored) = match &self.heap[i].data {
            ObjectData::Stream(state) => (state.queue.len(), state.finished, state.waker),
            _ => {
                return Err(Error::WrongObjectType);
            },
        };
        if queued > 0 {
            let item_class = match self.find_class(STREAM_POLL_CLASS) {
                Ok(c) => c,
                Err(e) => {
                    return Err(e);
                },
            };
            let result_class = match self.find_class(POLL_RESULT_CLASS) {
                Ok(c) => c,
                Err(e) => {
                    return Err(e);
                },
            };
            let ghost before = self.heap@;
            let item = match &mut self.heap[i].data {
                ObjectData::Stream(state) => state.queue.remove(0),
                _ => JObject { id: 0 },
            };
            proof {
                lemma_heap_update(before, self.heap@, i as int);
            }
            let wrapper = self.allocate(item_class, ObjectData::StreamPoll(item));
            let result = self.allocate(
                result_class,
                ObjectData::PollResult(PollData { value: wrapper, failure: None }),
            );
            match self.discard(waker) {
                Ok(()) => Ok(result),
                Err(e) => Err(e),
            }
        } else if finished {
            let result_class = match self.find_class(POLL_RESULT_CLASS) {
                Ok(c) => c,
                Err(e) => {
                    return Err(e);
                },
            };
            let result = self.allocate(
                result_class,
                ObjectData::PollResult(PollData { value: JObject { id: 0 }, failure: None }),
            );
            match self.discard(waker) {
                Ok(()) => Ok(result),
                Err(e) => Err(e),
            }
        } else {
            let ghost before = self.heap@;
            match &mut self.heap[i].data {
                ObjectData::Stream(state) => {
                    state.waker = waker;
                },
                _ => {},
            }
            proof {
                lemma_heap_update(before, self.heap@, i as int);
            }
            match self.discard(stored) {
                Ok(()) => Ok(JObject { id: 0 }),
                Err(e) => Err(e),
            }
        }
    }

    /// Adds `item` to the end of the queue of the multi-value completion
    /// source `source` and wakes the waker it has stored. Returns the
    /// capability that the caller is to signal, if there is one.
    pub fn push_stream(&mut self, source: JObject, item: JObject) -> (r: Result<
        Option<Waker>,
        Error,
    >)
        ensures
            stream_produced(
                old(self)@,
                source,
                StreamView {
                    queue: old(self)@.stream(source).queue.push(item),
                    ..old(self)@.stream(source)
                },
                r,
                final(self)@,
            ),
    {
        if self.exception_check() {
            return Err(Error::JavaException);
        }
        let i = match self.index_of(source) {
            Some(i) => i,
            None => {
                return Err(Error::NullPtr);
            },
        };
        let stored = match &self.heap[i].data {
            ObjectData::Stream(state) => state.waker,
            _ => {
                return Err(Error::WrongObjectType);
            },
        };
        let ghost before = self.heap@;
        match &mut self.heap[i].data {
            ObjectData::Stream(state) => {
                state.queue.push(item);
            },
            _ => {},
        }
        proof {
            lemma_heap_update(before, self.heap@, i as int);
        }
        self.notify(stored)
    }

    /// Marks the multi-value completion source `source` as finished, so that
    /// it reports the end of the stream once its queue is empty, and wakes the
    /// waker it has stored. Returns the capability that the caller is to
    /// signal, if there is one.
    pub fn finish_stream(&mut self, source: JObject) -> (r: Result<Option<Waker>, Error>)
        ensures
            stream_produced(
                old(self)@,
                source,
                StreamView { finished: true, ..old(self)@.stream(source) },
                r,
                final(self)@,
            ),
    {
        if self.exception_check() {
            return Err(Error::JavaException);
        }
        let i = match self.index_of(source) {
            Some(i) => i,
            None => {
                return Err(Error::NullPtr);
            },
        };
        let stored = match &self.heap[i].data {
            ObjectData::Stream(state) => state.waker,
            _ => {
                return Err(Error::WrongObjectType);
            },
        };
        let ghost before = self.heap@;
        match &mut self.heap[i].data {
            ObjectData::Stream(state) => {
                state.finished = true;
            },
            _ => {},
        }
        proof {
            lemma_heap_update(before, self.heap@, i as int);
        }
        self.notify(stored)
    }
}

} // verus!
