//! Managed wakers that give their wake capability up on the first wake,
//! and poll result objects.
use vstd::prelude::*;
use std::task::Waker;
use crate::env::{Env, EnvView};
use crate::errors::Error;
use crate::exceptions::PanicPayload;
use crate::objects::{Action, CallContract, JObject, ObjectData, ObjectView, PollData, WakerData};
use crate::ops::{armed, disposed, expose, invoked, NativeFn, FN_ADAPTER_CLASS};

pub mod strict;

verus! {

/// Name of the class of managed waker objects.
pub const WAKER_CLASS: &'static str = "io/github/gedgygedgy/rust/task/Waker";

/// Name of the class of poll result objects.
pub const POLL_RESULT_CLASS: &'static str = "io/github/gedgygedgy/rust/task/PollResult";

impl<F, P> EnvView<F, P> {
    /// Whether `obj` is a managed waker object.
    pub open spec fn is_waker(self, obj: JObject) -> bool {
        self.valid(obj) && self.data(obj) is Waker
    }

    /// The state of the waker object `obj`.
    pub open spec fn waker(self, obj: JObject) -> WakerData
        recommends
            self.is_waker(obj),
    {
        self.data(obj)->Waker_0
    }

    /// Whether `obj` is a poll result object.
    pub open spec fn is_poll_result(self, obj: JObject) -> bool {
        self.valid(obj) && self.data(obj) is PollResult
    }

    /// The state of the poll result object `obj`.
    pub open spec fn poll_result(self, obj: JObject) -> PollData
        recommends
            self.is_poll_result(obj),
    {
        self.data(obj)->PollResult_0
    }
}

/// Wraps the wake capability `capability` in a managed waker object. The
/// first wake of the object gives the capability up: it is returned to the
/// caller to be signalled. Waking the object again, or after it was closed,
/// returns nothing to signal.
///
/// The object delegates to a call-once closure object, created just before
/// it, whose action is to wake the task of the capability. Rejected while an
/// exception is pending; fails with `ClassNotFound` if the class of waker
/// objects or that of closure objects is not loaded. On failure the
/// capability is dropped.
pub fn waker<F, P>(env: &mut Env<F, P>, capability: Waker) -> (r: Result<JObject, Error>)
    ensures
        match r {
            Ok(obj) => {
                &&& old(env)@.pending is None
                &&& old(env)@.class_named(WAKER_CLASS@) matches Some(w)
                &&& old(env)@.class_named(FN_ADAPTER_CLASS@) matches Some(c)
                &&& obj.id == old(env)@.heap.len() + 2
                &&& final(env)@ == old(env)@.with_new(
                    c,
                    ObjectView::Closure(
                        armed(CallContract::Once, false, old(env)@.thread, Action::Wake(capability)),
                    ),
                ).with_new(
                    w,
                    ObjectView::Waker(
                        WakerData::Runnable(JObject { id: (old(env)@.heap.len() + 1) as u64 }),
                    ),
                )
            },
            Err(e) => {
                &&& *final(env) == *old(env)
                &&& if old(env)@.pending is Some {
                    e == Error::JavaException
                } else {
                    e == Error::ClassNotFound && (old(env)@.class_named(WAKER_CLASS@) is None
                        || old(env)@.class_named(FN_ADAPTER_CLASS@) is None)
                }
            },
        },
{
    let w = match env.find_class(WAKER_CLASS) {
        Ok(w) => w,
        Err(e) => {
            return Err(e);
        },
    };
    let runnable = match expose(env, CallContract::Once, Action::Wake(capability), false) {
        Ok(runnable) => runnable,
        Err(e) => {
            return Err(e);
        },
    };
    Ok(env.allocate(w, ObjectData::Waker(WakerData::Runnable(runnable))))
}

/// Whether `r` and `after` are what waking the waker object `obj` on
/// `before` comes to.
pub open spec fn woken_up<F, P>(
    before: EnvView<F, P>,
    obj: JObject,
    r: Result<Option<Waker>, Error>,
    after: EnvView<F, P>,
) -> bool {
    match before.refusal(obj, before.is_waker(obj)) {
        Some(e) => r == Err::<Option<Waker>, Error>(e) && after == before,
        None => match before.waker(obj) {
            WakerData::Runnable(runnable) => invoked(before, runnable, r, after),
            WakerData::Slot(slot) => strict::slot_woken(before, slot, r, after),
        },
    }
}

/// Whether `r` and `after` are what closing the waker object `obj` on
/// `before` comes to. A waker that keeps its capability in a slot is left
/// to finalization.
pub open spec fn waker_closed<F: NativeFn<P>, P: PanicPayload>(
    before: EnvView<F, P>,
    obj: JObject,
    r: Result<(), Error>,
    after: EnvView<F, P>,
) -> bool {
    match before.refusal(obj, before.is_waker(obj)) {
        Some(e) => r == Err::<(), Error>(e) && after == before,
        None => match before.waker(obj) {
            WakerData::Runnable(runnable) => disposed(before, runnable, r, after),
            WakerData::Slot(_) => r == Ok::<(), Error>(()) && after == before,
        },
    }
}

impl<F: NativeFn<P>, P: PanicPayload> Env<F, P> {
    /// Wakes the waker object `obj`: returns the capability that the caller
    /// is to signal, if there is one. A waker that delegates to a closure
    /// object returns what invoking that object returns (see
    /// [`to_signal`](crate::ops::to_signal)); a waker that holds its capability
    /// in a slot returns a second handle to it.
    pub fn wake(&mut self, obj: JObject) -> (r: Result<Option<Waker>, Error>)
        ensures
            woken_up(old(self)@, obj, r, final(self)@),
    {
        if self.exception_check() {
            return Err(Error::JavaException);
        }
        let i = match self.index_of(obj) {
            Some(i) => i,
            None => {
                return Err(Error::NullPtr);
            },
        };
        let runnable = match &self.heap[i].data {
            ObjectData::Waker(WakerData::Runnable(runnable)) => *runnable,
            ObjectData::Waker(WakerData::Slot(_)) => {
                return strict::waker_wake_impl(self, obj);
            },
            _ => {
                return Err(Error::WrongObjectType);
            },
        };
        self.run(runnable)
    }

    /// Closes the waker object `obj`: the capability it still holds is
    /// released. Nothing is returned to be signalled.
    pub fn close_waker(&mut self, obj: JObject) -> (r: Result<(), Error>)
        ensures
            waker_closed(old(self)@, obj, r, final(self)@),
    {
        if self.exception_check() {
            return Err(Error::JavaException);
        }
        let i = match self.index_of(obj) {
            Some(i) => i,
            None => {
                return Err(Error::NullPtr);
            },
        };
        let runnable = match &self.heap[i].data {
            ObjectData::Waker(WakerData::Runnable(runnable)) => *runnable,
            ObjectData::Waker(WakerData::Slot(_)) => {
                return Ok(());
            },
            _ => {
                return Err(Error::WrongObjectType);
            },
        };
        self.close(runnable)
    }
}

/// Wrapper for poll result objects: the outcome of a completed poll, read
/// with [`get`](JPollResult::get).
#[derive(Clone, Copy, Debug)]
pub struct JPollResult {
    pub internal: JObject,
}

/// Short name of [`JPollResult`].
pub type JPoll = JPollResult;

impl JPollResult {
    /// Wraps the poll result object `obj`. Rejected while an exception is
    /// pending; fails with `ClassNotFound` if the class of poll results is
    /// not loaded.
    pub fn from_env<F, P>(env: &Env<F, P>, obj: JObject) -> (r: Result<JPollResult, Error>)
        ensures
            match r {
                Ok(poll) => env@.pending is None && env@.class_named(POLL_RESULT_CLASS@) is Some
                    && poll.internal == obj,
                Err(e) => if env@.pending is Some {
                    e == Error::JavaException
                } else {
                    e == Error::ClassNotFound && env@.class_named(POLL_RESULT_CLASS@) is None
                },
            },
    {
        match env.find_class(POLL_RESULT_CLASS) {
            Ok(_) => Ok(JPollResult { internal: obj }),
            Err(e) => Err(e),
        }
    }

    /// The wrapped object.
    pub fn as_obj(&self) -> (r: JObject)
        ensures
            r == self.internal,
    {
        self.internal
    }

    /// Reads the poll result. A result that holds a value returns it. A
    /// result that holds a failure raises that exception and fails with
    /// `Error::JavaException`.
    pub fn get<F, P>(&self, env: &mut Env<F, P>) -> (r: Result<JObject, Error>)
        ensures
            match old(env)@.refusal(self.internal, old(env)@.is_poll_result(self.internal)) {
                Some(e) => r == Err::<JObject, Error>(e) && *final(env) == *old(env),
                None => match old(env)@.poll_result(self.internal).failure {
                    Some(ex) => r == Err::<JObject, Error>(Error::JavaException) && final(env)@
                        == old(env)@.with_pending(Some(ex)),
                    None => r == Ok::<JObject, Error>(old(env)@.poll_result(self.internal).value)
                        && *final(env) == *old(env),
                },
            },
    {
        if env.exception_check() {
            return Err(Error::JavaException);
        }
        let i = match env.index_of(self.internal) {
            Some(i) => i,
            None => {
                return Err(Error::NullPtr);
            },
        };
        let (value, failure) = match &env.heap[i].data {
            ObjectData::PollResult(p) => (p.value, p.failure),
            _ => {
                return Err(Error::WrongObjectType);
            },
        };
        match failure {
            Some(ex) => {
                env.pending = Some(ex);
                Err(Error::JavaException)
            },
            None => Ok(value),
        }
    }
}

/// Whether `waker` is null or a managed waker object of one of the two
/// kinds that the bridge creates: one that holds its capability in a slot,
/// or one that delegates to a closure object that is bound to no thread and
/// whose action, if it still has one, is to wake a task.
pub open spec fn bridge_waker<F, P>(env: EnvView<F, P>, waker: JObject) -> bool {
    waker.id == 0 || (env.is_waker(waker) && match env.waker(waker) {
        WakerData::Slot(_) => true,
        WakerData::Runnable(runnable) => {
            &&& env.is_closure(runnable)
            &&& !env.closure(runnable).local
            &&& env.closure(runnable).action matches Some(action) ==> action is Wake
        },
    })
}

/// Waking a waker that has given its capability up, by being woken or by
/// being closed, does nothing and is no error: there is nothing to signal.
pub proof fn law_spent_waker_is_silent<F, P>(
    env: EnvView<F, P>,
    waker: JObject,
    r: Result<Option<Waker>, Error>,
    after: EnvView<F, P>,
)
    requires
        env.pending is None,
        env.is_waker(waker),
        env.waker(waker) matches WakerData::Runnable(runnable) && env.is_closure(runnable)
            && !env.closure(runnable).local && (env.closure(runnable).state is Consumed
            || env.closure(runnable).state is Closed),
        woken_up(env, waker, r, after),
    ensures
        r == Ok::<Option<Waker>, Error>(None),
        after == env,
{
}

/// Waking an armed waker of the kind that gives its capability up spends
/// it: the call returns the very capability that the waker held, to be
/// signalled once, and the closure object behind the waker is consumed and
/// holds nothing any more.
pub proof fn law_wake_spends_the_waker<F, P>(
    env: EnvView<F, P>,
    waker: JObject,
    r: Result<Option<Waker>, Error>,
    after: EnvView<F, P>,
)
    requires
        env.pending is None,
        env.is_waker(waker),
        env.waker(waker) matches WakerData::Runnable(runnable) && env.is_closure(runnable)
            && !env.closure(runnable).local && env.closure(runnable).contract is Once
            && env.closure(runnable).state is Armed && env.closure(runnable).action is Some
            && env.closure(runnable).action->Some_0 is Wake,
        woken_up(env, waker, r, after),
    ensures
        r == Ok::<Option<Waker>, Error>(
            Some(env.closure(env.waker(waker)->Runnable_0).action->Some_0->Wake_0),
        ),
        after.waker(waker) == env.waker(waker),
        after.closure(env.waker(waker)->Runnable_0).state is Consumed,
        after.closure(env.waker(waker)->Runnable_0).action is None,
{
}

/// Closing an armed waker of the kind that gives its capability up releases
/// the capability without signalling it: closing returns nothing to signal,
/// it raises nothing, and the closure object behind the waker is closed and
/// holds nothing any more, so that a wake that comes later has nothing to
/// signal either.
pub proof fn law_close_releases_without_signalling<F: NativeFn<P>, P: PanicPayload>(
    env: EnvView<F, P>,
    waker: JObject,
    closed: Result<(), Error>,
    mid: EnvView<F, P>,
    r: Result<Option<Waker>, Error>,
    after: EnvView<F, P>,
)
    requires
        env.pending is None,
        env.is_waker(waker),
        env.waker(waker) matches WakerData::Runnable(runnable) && env.is_closure(runnable)
            && !env.closure(runnable).local && env.closure(runnable).action is Some
            && env.closure(runnable).action->Some_0 is Wake,
        waker_closed(env, waker, closed, mid),
        woken_up(mid, waker, r, after),
    ensures
        closed == Ok::<(), Error>(()),
        mid == env.closed(env.waker(waker)->Runnable_0),
        mid.closure(env.waker(waker)->Runnable_0).action is None,
        r == Ok::<Option<Waker>, Error>(None),
        after == mid,
{
}

} // verus!
