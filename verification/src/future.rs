//! Poll adapter for single-value completion sources.
use vstd::prelude::*;
use std::task::{Context, Poll, Waker};
use crate::env::{Env, EnvView};
use crate::errors::Error;
use crate::exceptions::PanicPayload;
use crate::objects::{
    Action, CallContract, FutureSource, GlobalRef, JObject, JThrowable, JavaVM, ObjectView,
    PollData, WakerData,
};
use crate::ops::{armed, NativeFn, FN_ADAPTER_CLASS};
use crate::sources::{
    future_completed, future_failed, future_polled, future_settled, task_failure,
    FUTURE_EXCEPTION_CLASS,
};
use crate::task::{bridge_waker, JPollResult, POLL_RESULT_CLASS, WAKER_CLASS};
use crate::wake::{clone_waker, cloned_capability, context_waker, task_capability};

verus! {

/// The result of one poll: ready with a value, or pending.
#[verifier::external_type_specification]
#[verifier::reject_recursive_types(T)]
pub struct ExPoll<T>(Poll<T>);

/// Name of the class that single-value completion sources derive from.
pub const FUTURE_CLASS: &'static str = "io/github/gedgygedgy/rust/future/Future";

/// Whether the classes that creating a managed waker of the given kind
/// needs are loaded.
pub open spec fn can_wrap_waker<F, P>(env: EnvView<F, P>, strict: bool) -> bool {
    env.class_named(WAKER_CLASS@) is Some && (strict || env.class_named(FN_ADAPTER_CLASS@)
        is Some)
}

/// The managed side after the wake capability `capability` was wrapped in a
/// managed waker object of the given kind: one that holds the capability in
/// a slot if `strict` is set, else one that delegates to a call-once closure
/// object.
pub open spec fn with_waker<F, P>(env: EnvView<F, P>, strict: bool, capability: Waker) -> EnvView<
    F,
    P,
> {
    let w = env.class_named(WAKER_CLASS@)->Some_0;
    if strict {
        env.with_new(w, ObjectView::Waker(WakerData::Slot(Some(capability))))
    } else {
        env.with_new(
            env.class_named(FN_ADAPTER_CLASS@)->Some_0,
            ObjectView::Closure(
                armed(CallContract::Once, false, env.thread, Action::Wake(capability)),
            ),
        ).with_new(w, ObjectView::Waker(WakerData::Runnable(env.next_handle())))
    }
}

/// The handle of the waker object that [`with_waker`] creates.
pub open spec fn waker_handle<F, P>(env: EnvView<F, P>, strict: bool) -> JObject {
    if strict {
        JObject { id: (env.heap.len() + 1) as u64 }
    } else {
        JObject { id: (env.heap.len() + 2) as u64 }
    }
}

/// The capability that a poll on behalf of the task polled in `context`
/// wraps and hands to the completion source: a second handle to the wake
/// capability of that task.
pub open spec fn polling_capability(context: &Context<'_>) -> Waker {
    cloned_capability(task_capability(context))
}

/// Wraps the wake capability of the task that is polled in `context` in a
/// managed waker object of the given kind.
pub fn wrap_waker<F, P>(env: &mut Env<F, P>, strict: bool, context: &mut Context<'_>) -> (r: Result<
    JObject,
    Error,
>)
    ensures
        match r {
            Ok(obj) => {
                &&& old(env)@.pending is None
                &&& can_wrap_waker(old(env)@, strict)
                &&& obj == waker_handle(old(env)@, strict)
                &&& final(env)@ == with_waker(old(env)@, strict, polling_capability(&*old(context)))
            },
            Err(e) => {
                &&& *final(env) == *old(env)
                &&& if old(env)@.pending is Some {
                    e == Error::JavaException
                } else {
                    e == Error::ClassNotFound && !can_wrap_waker(old(env)@, strict)
                }
            },
        },
{
    let capability = clone_waker(context_waker(context));
    let r = if strict {
        crate::task::strict::waker(env, capability)
    } else {
        crate::task::waker(env, capability)
    };
    proof {
        if r is Ok {
            assert(env@ == with_waker(old(env)@, strict, capability));
        }
    }
    r
}

/// What a poll adapter makes of what the completion source returned: an
/// error is passed on, null means pending, and any other object is wrapped
/// as a poll result, which is refused while an exception is pending and
/// fails with `ClassNotFound` if the class of poll results is not loaded.
pub open spec fn poll_answer<F, P>(env: EnvView<F, P>, found: Result<JObject, Error>) -> Result<
    Poll<JPollResult>,
    Error,
> {
    match found {
        Err(e) => Err(e),
        Ok(obj) => if obj.id == 0 {
            Ok(Poll::Pending)
        } else if env.pending is Some {
            Err(Error::JavaException)
        } else if env.class_named(POLL_RESULT_CLASS@) is None {
            Err(Error::ClassNotFound)
        } else {
            Ok(Poll::Ready(JPollResult { internal: obj }))
        },
    }
}

/// Moves the error of a poll that failed into the ready value.
pub open spec fn surfaced<T>(r: Result<Poll<T>, Error>) -> Poll<Result<T, Error>> {
    match r {
        Ok(Poll::Ready(v)) => Poll::Ready(Ok(v)),
        Ok(Poll::Pending) => Poll::Pending,
        Err(e) => Poll::Ready(Err(e)),
    }
}

/// Wrapper for single-value completion sources. Polling it polls the source
/// with a freshly wrapped waker for the polling task.
#[derive(Clone, Copy, Debug)]
pub struct JFuture {
    pub internal: JObject,
    /// Whether the wakers handed to the source hold their capability in a
    /// slot (see [`crate::task::strict::waker`]) instead of giving it up on
    /// the first wake (see [`crate::task::waker`]).
    pub strict: bool,
}

impl JFuture {
    /// Wraps the completion source `obj`. Polls hand it wakers that give
    /// their capability up on the first wake. Rejected while an exception is
    /// pending; fails with `ClassNotFound` if the class of completion
    /// sources is not loaded.
    pub fn from_env<F, P>(env: &Env<F, P>, obj: JObject) -> (r: Result<JFuture, Error>)
        ensures
            match r {
                Ok(future) => env@.pending is None && env@.class_named(FUTURE_CLASS@) is Some
                    && future == (JFuture { internal: obj, strict: false }),
                Err(e) => if env@.pending is Some {
                    e == Error::JavaException
                } else {
                    e == Error::ClassNotFound && env@.class_named(FUTURE_CLASS@) is None
                },
            },
    {
        match env.find_class(FUTURE_CLASS) {
            Ok(_) => Ok(JFuture { internal: obj, strict: false }),
            Err(e) => Err(e),
        }
    }

    /// The same wrapper, whose polls hand the source wakers that hold their
    /// capability in a slot.
    pub fn with_strict_wakers(self) -> (r: JFuture)
        ensures
            r == (JFuture { internal: self.internal, strict: true }),
    {
        JFuture { internal: self.internal, strict: true }
    }

    /// The wrapped object.
    pub fn as_obj(&self) -> (r: JObject)
        ensures
            r == self.internal,
    {
        self.internal
    }

    /// Polls the source with the managed waker `waker`: pending if the
    /// source returns null, which means that it has stored the waker and
    /// will wake it; ready with the poll result object otherwise. A poll
    /// signals nothing itself.
    pub fn j_poll<F: NativeFn<P>, P: PanicPayload>(&self, env: &mut Env<F, P>, waker: JObject) -> (r:
        Result<Poll<JPollResult>, Error>)
        ensures
            exists|found: Result<JObject, Error>| #[trigger]
                future_polled(old(env)@, self.internal, waker, found, final(env)@) && r
                    == poll_answer(final(env)@, found),
    {
        let found = env.poll_future(self.internal, waker);
        match found {
            Ok(result) => {
                if result.is_null() {
                    Ok(Poll::Pending)
                } else {
                    match JPollResult::from_env(env, result) {
                        Ok(poll) => Ok(Poll::Ready(poll)),
                        Err(e) => Err(e),
                    }
                }
            },
            Err(e) => Err(e),
        }
    }

    /// Polls the source on behalf of the task that is polled in `context`.
    /// The error, if any, is that of wrapping the waker or of the poll.
    pub fn poll_internal<F: NativeFn<P>, P: PanicPayload>(
        &self,
        env: &mut Env<F, P>,
        context: &mut Context<'_>,
    ) -> (r: Result<Poll<JPollResult>, Error>)
        ensures
            old(env)@.pending is Some ==> r == Err::<Poll<JPollResult>, Error>(
                Error::JavaException,
            ) && *final(env) == *old(env),
            old(env)@.pending is None && !can_wrap_waker(old(env)@, self.strict) ==> r == Err::<
                Poll<JPollResult>,
                Error,
            >(Error::ClassNotFound) && *final(env) == *old(env),
            old(env)@.pending is None && can_wrap_waker(old(env)@, self.strict) ==> exists|
                found: Result<JObject, Error>,
            | #[trigger]
                future_polled(
                    with_waker(old(env)@, self.strict, polling_capability(&*old(context))),
                    self.internal,
                    waker_handle(old(env)@, self.strict),
                    found,
                    final(env)@,
                ) && r == poll_answer(final(env)@, found),
    {
        let waker = match wrap_waker(env, self.strict, context) {
            Ok(waker) => waker,
            Err(e) => {
                return Err(e);
            },
        };
        self.j_poll(env, waker)
    }

    /// Polls the source on behalf of the task that is polled in `context`:
    /// pending if the source is not complete, else ready with the poll
    /// result object or with the error that kept the poll from being made.
    pub fn poll<F: NativeFn<P>, P: PanicPayload>(
        &self,
        env: &mut Env<F, P>,
        context: &mut Context<'_>,
    ) -> (r: Poll<Result<JPollResult, Error>>)
        ensures
            old(env)@.pending is Some ==> r == Poll::Ready(
                Err::<JPollResult, Error>(Error::JavaException),
            ) && *final(env) == *old(env),
            old(env)@.pending is None && !can_wrap_waker(old(env)@, self.strict) ==> r
                == Poll::Ready(Err::<JPollResult, Error>(Error::ClassNotFound)) && *final(env)
                == *old(env),
            old(env)@.pending is None && can_wrap_waker(old(env)@, self.strict) ==> exists|
                found: Result<JObject, Error>,
            | #[trigger]
                future_polled(
                    with_waker(old(env)@, self.strict, polling_capability(&*old(context))),
                    self.internal,
                    waker_handle(old(env)@, self.strict),
                    found,
                    final(env)@,
                ) && r == surfaced(poll_answer(final(env)@, found)),
    {
        match self.poll_internal(env, context) {
            Ok(Poll::Ready(result)) => Poll::Ready(Ok(result)),
            Ok(Poll::Pending) => Poll::Pending,
            Err(e) => Poll::Ready(Err(e)),
        }
    }
}

/// Whether `r` and `after` are what examining the exception `ex`, raised by
/// reading a poll result on `before`, comes to. If it is the wrapper that
/// marks the failure of a task, it is taken out of the pending slot, and its
/// cause is the failure of the task. Any other exception is no task failure:
/// it stays pending, and the read fails with `Error::JavaException`. Where
/// the examination itself fails, the exception stays pending too.
pub open spec fn failure_examined<F, P>(
    before: EnvView<F, P>,
    ex: JThrowable,
    r: Result<Result<JObject, JThrowable>, Error>,
    after: EnvView<F, P>,
) -> bool {
    let cleared = before.with_pending(None);
    let kept = before.with_pending(Some(ex));
    match before.class_named(FUTURE_EXCEPTION_CLASS@) {
        None => r == Err::<Result<JObject, JThrowable>, Error>(Error::ClassNotFound) && after
            == kept,
        Some(c) => if ex.obj.id != 0 && !before.valid(ex.obj) {
            r == Err::<Result<JObject, JThrowable>, Error>(Error::NullPtr) && after == kept
        } else if before.instance_of(ex.obj, c) {
            match cleared.refusal(ex.obj, before.is_throwable(ex.obj)) {
                Some(e) => r == Err::<Result<JObject, JThrowable>, Error>(e) && after == kept,
                None => r == Ok::<Result<JObject, JThrowable>, Error>(
                    Err(JThrowable { obj: before.throwable(ex.obj).cause }),
                ) && after == cleared,
            }
        } else {
            r == Err::<Result<JObject, JThrowable>, Error>(Error::JavaException) && after == kept
        },
    }
}

/// Whether `r` and `after` are what reading the poll result object `obj` for
/// its value or its task failure comes to on `before`. An exception that is
/// pending beforehand is examined like one that the read raised.
pub open spec fn unwrapped<F, P>(
    before: EnvView<F, P>,
    obj: JObject,
    r: Result<Result<JObject, JThrowable>, Error>,
    after: EnvView<F, P>,
) -> bool {
    match before.pending {
        Some(ex) => failure_examined(before, ex, r, after),
        None => match before.refusal(obj, before.is_poll_result(obj)) {
            Some(e) => r == Err::<Result<JObject, JThrowable>, Error>(e) && after == before,
            None => match before.poll_result(obj).failure {
                None => r == Ok::<Result<JObject, JThrowable>, Error>(
                    Ok(before.poll_result(obj).value),
                ) && after == before,
                Some(ex) => failure_examined(before, ex, r, after),
            },
        },
    }
}

impl JPollResult {
    /// Reads the poll result for its value or its task failure. A result
    /// that holds a value returns it as the success of the task. A result
    /// whose reading raises the exception that wraps a task failure returns
    /// the wrapped cause, the very object that the producer failed the task
    /// with, as the failure of the task, and leaves no exception pending.
    /// Any other exception stays pending, and the read fails with
    /// `Error::JavaException`.
    pub fn get_with_throwable<F, P>(&self, env: &mut Env<F, P>) -> (r: Result<
        Result<JObject, JThrowable>,
        Error,
    >)
        ensures
            unwrapped(old(env)@, self.internal, r, final(env)@),
    {
        match self.get(env) {
            Ok(value) => Ok(Ok(value)),
            Err(Error::JavaException) => {
                let ex = env.exception_occurred();
                env.exception_clear();
                match env.is_instance_of(ex.obj, FUTURE_EXCEPTION_CLASS) {
                    Ok(true) => match env.get_cause(ex) {
                        Ok(cause) => Ok(Err(JThrowable { obj: cause })),
                        Err(e) => {
                            env.pending = Some(ex);
                            Err(e)
                        },
                    },
                    Ok(false) => {
                        env.pending = Some(ex);
                        Err(Error::JavaException)
                    },
                    Err(e) => {
                        env.pending = Some(ex);
                        Err(e)
                    },
                }
            },
            Err(e) => Err(e),
        }
    }
}

/// The result of a poll for a value, made of what reading the poll result
/// gave.
pub open spec fn ready_with<T>(read: Result<T, Error>) -> Result<Poll<T>, Error> {
    match read {
        Ok(v) => Ok(Poll::Ready(v)),
        Err(e) => Err(e),
    }
}

/// Whether `r` and `after` are what a poll for a value makes of what the
/// completion source returned on `mid`: pending stays pending, an error
/// stays an error, and a poll result object is read for its value or its
/// task failure (see [`unwrapped`]).
pub open spec fn value_answered<F, P>(
    mid: EnvView<F, P>,
    found: Result<JObject, Error>,
    r: Result<Poll<Result<JObject, JThrowable>>, Error>,
    after: EnvView<F, P>,
) -> bool {
    match poll_answer(mid, found) {
        Err(e) => r == Err::<Poll<Result<JObject, JThrowable>>, Error>(e) && after == mid,
        Ok(Poll::Pending) => r == Ok::<Poll<Result<JObject, JThrowable>>, Error>(Poll::Pending)
            && after == mid,
        Ok(Poll::Ready(result)) => exists|read: Result<Result<JObject, JThrowable>, Error>|
            #[trigger] unwrapped(mid, result.internal, read, after) && r == ready_with(read),
    }
}

impl JFuture {
    /// Polls the source with the managed waker `waker` for the value of the
    /// task: pending if the source returns null; else ready with the value
    /// that the task completed with or with the exception that it failed
    /// with. An exception that is no task failure is a hard error: it stays
    /// pending, and the poll fails with `Error::JavaException`.
    pub fn j_poll_value<F: NativeFn<P>, P: PanicPayload>(
        &self,
        env: &mut Env<F, P>,
        waker: JObject,
    ) -> (r: Result<Poll<Result<JObject, JThrowable>>, Error>)
        ensures
            exists|found: Result<JObject, Error>, mid: EnvView<F, P>| #[trigger]
                future_polled(old(env)@, self.internal, waker, found, mid) && value_answered(
                    mid,
                    found,
                    r,
                    final(env)@,
                ),
    {
        match self.j_poll(env, waker) {
            Ok(Poll::Ready(result)) => match result.get_with_throwable(env) {
                Ok(value) => Ok(Poll::Ready(value)),
                Err(e) => Err(e),
            },
            Ok(Poll::Pending) => Ok(Poll::Pending),
            Err(e) => Err(e),
        }
    }

    /// Polls the source for the value of the task on behalf of the task that
    /// is polled in `context`: pending if the source is not complete; else
    /// ready with the value or the failure of the task, or with the hard
    /// error that kept the poll from giving either.
    pub fn poll_value<F: NativeFn<P>, P: PanicPayload>(
        &self,
        env: &mut Env<F, P>,
        context: &mut Context<'_>,
    ) -> (r: Poll<Result<Result<JObject, JThrowable>, Error>>)
        ensures
            old(env)@.pending is Some ==> r == Poll::Ready(
                Err::<Result<JObject, JThrowable>, Error>(Error::JavaException),
            ) && *final(env) == *old(env),
            old(env)@.pending is None && !can_wrap_waker(old(env)@, self.strict) ==> r
                == Poll::Ready(Err::<Result<JObject, JThrowable>, Error>(Error::ClassNotFound))
                && *final(env) == *old(env),
            old(env)@.pending is None && can_wrap_waker(old(env)@, self.strict) ==> exists|
                found: Result<JObject, Error>,
                mid: EnvView<F, P>,
                answer: Result<Poll<Result<JObject, JThrowable>>, Error>,
            | #[trigger]
                future_polled(
                    with_waker(old(env)@, self.strict, polling_capability(&*old(context))),
                    self.internal,
                    waker_handle(old(env)@, self.strict),
                    found,
                    mid,
                ) && #[trigger] value_answered(mid, found, answer, final(env)@) && r == surfaced(
                    answer,
                ),
    {
        let waker = match wrap_waker(env, self.strict, context) {
            Ok(waker) => waker,
            Err(e) => {
                return Poll::Ready(Err(e));
            },
        };
        match self.j_poll_value(env, waker) {
            Ok(Poll::Ready(result)) => Poll::Ready(Ok(result)),
            Ok(Poll::Pending) => Poll::Pending,
            Err(e) => Poll::Ready(Err(e)),
        }
    }
}

/// The result of a poll with the poll result object behind a persistent
/// handle.
pub open spec fn persistent(r: Result<Poll<JPollResult>, Error>) -> Result<
    Poll<Result<GlobalRef, Error>>,
    Error,
> {
    match r {
        Ok(Poll::Ready(result)) => Ok(Poll::Ready(Ok(GlobalRef { obj: result.internal }))),
        Ok(Poll::Pending) => Ok(Poll::Pending),
        Err(e) => Err(e),
    }
}

/// Moves the error of a poll that could not be made into the ready value.
pub open spec fn flattened<T>(r: Result<Poll<Result<T, Error>>, Error>) -> Poll<Result<T, Error>> {
    match r {
        Ok(poll) => poll,
        Err(e) => Poll::Ready(Err(e)),
    }
}

/// A [`JFuture`] that can move between threads: it holds a persistent
/// handle to the completion source and the capability to get access to the
/// runtime, which it uses anew on every poll.
#[derive(Clone, Copy, Debug)]
pub struct JavaFuture {
    pub internal: GlobalRef,
    pub vm: JavaVM,
    /// See [`JFuture::strict`].
    pub strict: bool,
}

impl JavaFuture {
    /// Promotes `future` to its thread-transferable form. Rejected while an
    /// exception is pending.
    pub fn try_from<F, P>(env: &Env<F, P>, future: JFuture) -> (r: Result<JavaFuture, Error>)
        ensures
            match env@.pending {
                Some(_) => r == Err::<JavaFuture, Error>(Error::JavaException),
                None => r == Ok::<JavaFuture, Error>(
                    JavaFuture {
                        internal: GlobalRef { obj: future.internal },
                        vm: JavaVM { id: env@.vm },
                        strict: future.strict,
                    },
                ),
            },
    {
        let internal = match env.new_global_ref(future.internal) {
            Ok(internal) => internal,
            Err(e) => {
                return Err(e);
            },
        };
        let vm = match env.get_java_vm() {
            Ok(vm) => vm,
            Err(e) => {
                return Err(e);
            },
        };
        Ok(JavaFuture { internal, vm, strict: future.strict })
    }

    /// Polls the source on behalf of the task that is polled in `context`,
    /// through `env`. Access is acquired first: if `env` is not the runtime
    /// that the future belongs to, the poll fails with `ThreadDetached` and
    /// nothing else happens. After that the poll is that of the scoped form,
    /// wrapped anew (see [`JFuture::from_env`] and
    /// [`JFuture::poll_internal`]), and a poll result object is returned
    /// behind a persistent handle.
    pub fn poll_internal<F: NativeFn<P>, P: PanicPayload>(
        &self,
        env: &mut Env<F, P>,
        context: &mut Context<'_>,
    ) -> (r: Result<Poll<Result<GlobalRef, Error>>, Error>)
        ensures
            old(env)@.vm != self.vm.id ==> r == Err::<Poll<Result<GlobalRef, Error>>, Error>(
                Error::ThreadDetached,
            ) && *final(env) == *old(env),
            old(env)@.vm == self.vm.id && old(env)@.pending is Some ==> r == Err::<
                Poll<Result<GlobalRef, Error>>,
                Error,
            >(Error::JavaException) && *final(env) == *old(env),
            old(env)@.vm == self.vm.id && old(env)@.pending is None && !(old(env)@.class_named(
                FUTURE_CLASS@,
            ) is Some && can_wrap_waker(old(env)@, self.strict)) ==> r == Err::<
                Poll<Result<GlobalRef, Error>>,
                Error,
            >(Error::ClassNotFound) && *final(env) == *old(env),
            old(env)@.vm == self.vm.id && old(env)@.pending is None && old(env)@.class_named(
                FUTURE_CLASS@,
            ) is Some && can_wrap_waker(old(env)@, self.strict) ==> exists|
                found: Result<JObject, Error>,
            | #[trigger]
                future_polled(
                    with_waker(old(env)@, self.strict, polling_capability(&*old(context))),
                    self.internal.obj,
                    waker_handle(old(env)@, self.strict),
                    found,
                    final(env)@,
                ) && r == persistent(poll_answer(final(env)@, found)),
    {
        match self.vm.acquire(env) {
            Ok(()) => {},
            Err(e) => {
                return Err(e);
            },
        }
        let future = match JFuture::from_env(env, self.internal.as_obj()) {
            Ok(future) => JFuture { internal: future.internal, strict: self.strict },
            Err(e) => {
                return Err(e);
            },
        };
        match future.poll_internal(env, context) {
            Ok(Poll::Ready(result)) => match env.new_global_ref(result.internal) {
                Ok(global) => Ok(Poll::Ready(Ok(global))),
                Err(e) => Ok(Poll::Ready(Err(e))),
            },
            Ok(Poll::Pending) => Ok(Poll::Pending),
            Err(e) => Err(e),
        }
    }

    /// Polls the source on behalf of the task that is polled in `context`,
    /// through `env`: pending if the source is not complete, else ready with
    /// a persistent handle to the poll result object or with the error that
    /// kept the poll from being made. See
    /// [`poll_internal`](JavaFuture::poll_internal).
    pub fn poll<F: NativeFn<P>, P: PanicPayload>(
        &self,
        env: &mut Env<F, P>,
        context: &mut Context<'_>,
    ) -> (r: Poll<Result<GlobalRef, Error>>)
        ensures
            old(env)@.vm != self.vm.id ==> r == Poll::Ready(
                Err::<GlobalRef, Error>(Error::ThreadDetached),
            ) && *final(env) == *old(env),
            old(env)@.vm == self.vm.id && old(env)@.pending is Some ==> r == Poll::Ready(
                Err::<GlobalRef, Error>(Error::JavaException),
            ) && *final(env) == *old(env),
            old(env)@.vm == self.vm.id && old(env)@.pending is None && !(old(env)@.class_named(
                FUTURE_CLASS@,
            ) is Some && can_wrap_waker(old(env)@, self.strict)) ==> r == Poll::Ready(
                Err::<GlobalRef, Error>(Error::ClassNotFound),
            ) && *final(env) == *old(env),
            old(env)@.vm == self.vm.id && old(env)@.pending is None && old(env)@.class_named(
                FUTURE_CLASS@,
            ) is Some && can_wrap_waker(old(env)@, self.strict) ==> exists|
                found: Result<JObject, Error>,
            | #[trigger]
                future_polled(
                    with_waker(old(env)@, self.strict, polling_capability(&*old(context))),
                    self.internal.obj,
                    waker_handle(old(env)@, self.strict),
                    found,
                    final(env)@,
                ) && r == flattened(persistent(poll_answer(final(env)@, found))),
    {
        match self.poll_internal(env, context) {
            Ok(result) => result,
            Err(e) => Poll::Ready(Err(e)),
        }
    }
}

/// A poll of a source that is not complete is pending: the source answers
/// null and has stored the waker that the poll handed it.
pub proof fn law_incomplete_source_stores_the_waker<F: NativeFn<P>, P: PanicPayload>(
    env: EnvView<F, P>,
    source: JObject,
    waker: JObject,
    found: Result<JObject, Error>,
    after: EnvView<F, P>,
)
    requires
        env.pending is None,
        env.is_future(source),
        env.future(source).result is None,
        env.future(source).waker.id == 0,
        future_polled(env, source, waker, found, after),
    ensures
        found == Ok::<JObject, Error>(JObject { id: 0 }),
        poll_answer(after, found) == Ok::<Poll<JPollResult>, Error>(Poll::Pending),
        after == env.with_future(source, FutureSource { waker, result: None }),
        after.future(source).waker == waker,
{
}

/// Completing a source wakes the waker that it has stored and leaves the
/// source complete: if the stored waker is one of the bridge's and waking it
/// raised nothing, the source holds the outcome in a new poll result object,
/// and no exception is pending.
pub proof fn law_completion_sticks<F, P>(
    env: EnvView<F, P>,
    source: JObject,
    outcome: PollData,
    r: Result<Option<Waker>, Error>,
    after: EnvView<F, P>,
)
    requires
        env.pending is None,
        env.heap.len() < u64::MAX,
        env.is_future(source),
        env.future(source).result is None,
        env.class_named(POLL_RESULT_CLASS@) is Some,
        bridge_waker(env, env.future(source).waker),
        future_completed(env, source, outcome, r, after),
        r is Ok,
    ensures
        after.pending is None,
        after.classes == env.classes,
        after.heap.len() == env.heap.len() + 1,
        after.is_future(source),
        after.future(source).result == Some(env.next_handle()),
        after.is_poll_result(env.next_handle()),
        after.poll_result(env.next_handle()) == outcome,
{
}

/// Liveness of a single-value source: once the producer has completed a
/// pending source whose stored waker is one of the bridge's, the next poll,
/// whichever of the bridge's wakers it brings, is ready with the poll result
/// object that holds the outcome.
pub proof fn law_poll_after_completion_is_ready<F: NativeFn<P>, P: PanicPayload>(
    env: EnvView<F, P>,
    source: JObject,
    outcome: PollData,
    completed: Result<Option<Waker>, Error>,
    mid: EnvView<F, P>,
    waker: JObject,
    found: Result<JObject, Error>,
    after: EnvView<F, P>,
)
    requires
        env.pending is None,
        env.heap.len() < u64::MAX,
        env.is_future(source),
        env.future(source).result is None,
        env.class_named(POLL_RESULT_CLASS@) is Some,
        bridge_waker(env, env.future(source).waker),
        future_completed(env, source, outcome, completed, mid),
        completed is Ok,
        bridge_waker(mid, waker),
        future_polled(mid, source, waker, found, after),
    ensures
        found == Ok::<JObject, Error>(env.next_handle()),
        poll_answer(after, found) == Ok::<Poll<JPollResult>, Error>(
            Poll::Ready(JPollResult { internal: env.next_handle() }),
        ),
        after.is_poll_result(env.next_handle()),
        after.poll_result(env.next_handle()) == outcome,
{
    law_completion_sticks(env, source, outcome, completed, mid);
}

/// A task that completed with a value is read as that value.
pub proof fn law_value_is_delivered<F, P>(
    env: EnvView<F, P>,
    result: JObject,
    value: JObject,
    read: Result<Result<JObject, JThrowable>, Error>,
    after: EnvView<F, P>,
)
    requires
        env.pending is None,
        env.is_poll_result(result),
        env.poll_result(result) == (PollData { value, failure: None }),
        unwrapped(env, result, read, after),
    ensures
        read == Ok::<Result<JObject, JThrowable>, Error>(Ok(value)),
        after == env,
{
}

/// A task that the producer failed with an exception is read as a task
/// failure whose cause is that very exception, and no exception is left
/// pending.
pub proof fn law_failure_keeps_its_cause<F, P>(
    env: EnvView<F, P>,
    result: JObject,
    wrapper: JThrowable,
    cause: JThrowable,
    read: Result<Result<JObject, JThrowable>, Error>,
    after: EnvView<F, P>,
)
    requires
        env.pending is None,
        env.is_poll_result(result),
        env.poll_result(result).failure == Some(wrapper),
        env.class_named(FUTURE_EXCEPTION_CLASS@) matches Some(c) && env.instance_of(
            wrapper.obj,
            c,
        ),
        env.is_throwable(wrapper.obj),
        env.throwable(wrapper.obj) == task_failure::<P>(cause),
        unwrapped(env, result, read, after),
    ensures
        read == Ok::<Result<JObject, JThrowable>, Error>(Err(cause)),
        after == env,
{
}

/// A task that the producer completes with a value is polled ready with
/// that value: once the producer has completed a pending source whose stored
/// waker is one of the bridge's, the next poll for the value of the task,
/// whichever of the bridge's wakers it brings, is ready with the value.
pub proof fn law_completed_task_yields_its_value<F: NativeFn<P>, P: PanicPayload>(
    env: EnvView<F, P>,
    source: JObject,
    value: JObject,
    completed: Result<Option<Waker>, Error>,
    mid: EnvView<F, P>,
    waker: JObject,
    found: Result<JObject, Error>,
    polled: EnvView<F, P>,
    r: Result<Poll<Result<JObject, JThrowable>>, Error>,
    after: EnvView<F, P>,
)
    requires
        env.pending is None,
        env.heap.len() < u64::MAX,
        env.is_future(source),
        env.future(source).result is None,
        env.class_named(POLL_RESULT_CLASS@) is Some,
        bridge_waker(env, env.future(source).waker),
        future_completed(env, source, PollData { value, failure: None }, completed, mid),
        completed is Ok,
        bridge_waker(mid, waker),
        future_polled(mid, source, waker, found, polled),
        value_answered(polled, found, r, after),
    ensures
        r == Ok::<Poll<Result<JObject, JThrowable>>, Error>(Poll::Ready(Ok(value))),
        after.pending is None,
{
    law_poll_after_completion_is_ready(
        env,
        source,
        PollData { value, failure: None },
        completed,
        mid,
        waker,
        found,
        polled,
    );
    law_completion_sticks(env, source, PollData { value, failure: None }, completed, mid);
}

/// A task that the producer fails with an exception is polled ready with
/// that very exception as its failure, and no exception is left pending:
/// once the producer has failed a pending source whose stored waker is one
/// of the bridge's, the next poll for the value of the task, whichever of
/// the bridge's wakers it brings, is ready with the exception.
pub proof fn law_failed_task_yields_its_cause<F: NativeFn<P>, P: PanicPayload>(
    env: EnvView<F, P>,
    source: JObject,
    cause: JThrowable,
    failed: Result<Option<Waker>, Error>,
    mid: EnvView<F, P>,
    waker: JObject,
    found: Result<JObject, Error>,
    polled: EnvView<F, P>,
    r: Result<Poll<Result<JObject, JThrowable>>, Error>,
    after: EnvView<F, P>,
)
    requires
        env.pending is None,
        env.heap.len() + 1 < u64::MAX,
        env.is_future(source),
        env.future(source).result is None,
        env.class_named(POLL_RESULT_CLASS@) is Some,
        env.class_named(FUTURE_EXCEPTION_CLASS@) matches Some(c) && 0 <= c < env.classes.len(),
        bridge_waker(env, env.future(source).waker),
        future_failed(env, source, cause, failed, mid),
        failed is Ok,
        bridge_waker(mid, waker),
        future_polled(mid, source, waker, found, polled),
        value_answered(polled, found, r, after),
    ensures
        r == Ok::<Poll<Result<JObject, JThrowable>>, Error>(Poll::Ready(Err(cause))),
        after.pending is None,
{
    let c = env.class_named(FUTURE_EXCEPTION_CLASS@)->Some_0;
    let wrapper = JThrowable { obj: env.next_handle() };
    let wrapped = env.with_new(c, ObjectView::Throwable(task_failure(cause)));
    let outcome = PollData { value: JObject { id: 0 }, failure: Some(wrapper) };
    law_poll_after_completion_is_ready(
        wrapped,
        source,
        outcome,
        failed,
        mid,
        waker,
        found,
        polled,
    );
    law_completion_sticks(wrapped, source, outcome, failed, mid);
}

/// The capability that a waker object of the given kind returns to be
/// signalled when it is woken for the first time after it was made for
/// `capability`: the capability itself, which the waker gives up, or, for a
/// waker that holds its capability in a slot, a second handle to it.
pub open spec fn first_signal(strict: bool, capability: Waker) -> Waker {
    if strict {
        cloned_capability(capability)
    } else {
        capability
    }
}

/// A wakeup is not lost. A poll that finds a fresh source incomplete is
/// pending and leaves the waker that it made for `capability` in the source.
/// When the producer then completes the source, the completion returns, to be
/// signalled, what that waker's first wake signals: `capability`, or a second
/// handle to it. For a poll through [`JFuture`] the capability is
/// [`polling_capability`] of the context, so the task that is signalled is
/// the one that was polled.
pub proof fn law_completion_signals_the_polling_task<F: NativeFn<P>, P: PanicPayload>(
    env: EnvView<F, P>,
    source: JObject,
    strict: bool,
    capability: Waker,
    found: Result<JObject, Error>,
    polled: EnvView<F, P>,
    outcome: PollData,
    completed: Result<Option<Waker>, Error>,
    after: EnvView<F, P>,
)
    requires
        env.pending is None,
        env.heap.len() + 3 < u64::MAX,
        can_wrap_waker(env, strict),
        env.class_named(POLL_RESULT_CLASS@) is Some,
        env.is_future(source),
        env.future(source).result is None,
        env.future(source).waker.id == 0,
        future_polled(
            with_waker(env, strict, capability),
            source,
            waker_handle(env, strict),
            found,
            polled,
        ),
        future_completed(polled, source, outcome, completed, after),
    ensures
        poll_answer(polled, found) == Ok::<Poll<JPollResult>, Error>(Poll::Pending),
        polled.future(source).waker == waker_handle(env, strict),
        completed == Ok::<Option<Waker>, Error>(Some(first_signal(strict, capability))),
        after.pending is None,
        after.future(source).result is Some,
{
    let made = with_waker(env, strict, capability);
    let handle = waker_handle(env, strict);
    assert(made.is_future(source));
    assert(made.future(source) == env.future(source));
    assert(polled == made.with_future(source, FutureSource { waker: handle, result: None }));
    assert(polled.is_waker(handle));
    let c = polled.class_named(POLL_RESULT_CLASS@)->Some_0;
    let settled = future_settled(polled, source, c, outcome);
    assert(settled.is_waker(handle));
    assert(settled.waker(handle) == made.waker(handle));
    if !strict {
        let runnable = env.next_handle();
        assert(settled.is_closure(runnable));
        assert(settled.closure(runnable) == armed(
            CallContract::Once,
            false,
            env.thread,
            Action::<F>::Wake(capability),
        ));
    }
}

} // verus!
