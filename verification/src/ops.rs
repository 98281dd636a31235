//! Native closures exposed as managed objects under the call-once,
//! call-mutably and call-repeatedly contracts, with optional thread affinity.
use vstd::prelude::*;
use std::task::Waker;
use crate::env::{lemma_heap_update, Env, EnvView};
use crate::errors::Error;
use crate::exceptions::{panic_raised, raise_panic, PanicPayload, PANIC_EXCEPTION_CLASS};
use crate::objects::{
    Action, CallContract, ClosureRecord, ClosureState, JObject, ObjectData, ObjectView,
};
use crate::wake::{clone_waker, cloned_capability};

verus! {

/// Name of the class of the objects that expose a native closure.
pub const FN_ADAPTER_CLASS: &'static str = "io/github/gedgygedgy/rust/ops/FnAdapter";

/// Name of the class of the exception raised when a thread-bound object is
/// used from a thread other than the one that created it.
pub const LOCAL_THREAD_EXCEPTION_CLASS: &'static str =
    "io/github/gedgygedgy/rust/thread/LocalThreadException";

/// A native closure that the managed side can invoke. `P` is the type of
/// unwind payloads.
pub trait NativeFn<P>: Sized {
    /// Runs the body of the closure. `this` is the managed object through
    /// which the closure was invoked. A body that unwinds reports so by
    /// returning the unwind payload.
    fn invoke(&mut self, env: &mut Env<Self, P>, this: JObject) -> Result<(), P>;

    /// A second handle to the same closure, through which it can run while
    /// the first handle stays where it is. Asked only of closures exposed
    /// under the call-repeatedly contract.
    fn share(&self) -> Self;

    /// Releases the closure and what it captured. A teardown that unwinds
    /// reports so by returning the unwind payload.
    fn dispose(self) -> Result<(), P>;
}

/// The native closure whose body and teardown do nothing. It is the closure
/// type of a managed side that exposes no closures of its own.
#[derive(Clone, Copy, Debug, PartialEq, Eq, Structural)]
pub struct NoFn;

impl<P> NativeFn<P> for NoFn {
    fn invoke(&mut self, env: &mut Env<NoFn, P>, this: JObject) -> (r: Result<(), P>)
        ensures
            r == Ok::<(), P>(()),
            *final(env) == *old(env),
    {
        Ok(())
    }

    fn share(&self) -> NoFn {
        NoFn
    }

    fn dispose(self) -> Result<(), P>
        returns
            Ok::<(), P>(()),
    {
        Ok(())
    }
}

/// What invoking a closure object comes to, judged before anything is done.
pub enum Invocation {
    /// The call is refused: an exception is pending, the handle names no
    /// object, or the object exposes no closure.
    Refused(Error),
    /// The object is bound to another thread.
    WrongThread,
    /// Nothing happens: the closure was consumed or disposed of.
    Skip,
    /// The closure is call-mutably and is running.
    Deadlock,
    /// The body runs.
    Run,
}

impl<F, P> EnvView<F, P> {
    /// Whether `obj` exposes a native closure.
    pub open spec fn is_closure(self, obj: JObject) -> bool {
        self.valid(obj) && self.data(obj) is Closure
    }

    /// The closure record of `obj`.
    pub open spec fn closure(self, obj: JObject) -> ClosureRecord<F>
        recommends
            self.is_closure(obj),
    {
        self.data(obj)->Closure_0
    }

    /// This environment with `rec` as the closure record of `obj`.
    pub open spec fn with_closure(self, obj: JObject, rec: ClosureRecord<F>) -> EnvView<F, P> {
        self.with_data(obj, ObjectView::Closure(rec))
    }

    /// Whether the closure object `obj` may not be used from the calling
    /// thread.
    pub open spec fn bound_elsewhere(self, obj: JObject) -> bool
        recommends
            self.is_closure(obj),
    {
        self.closure(obj).local && self.closure(obj).owner != self.thread
    }

    /// What invoking `obj` comes to.
    pub open spec fn invocation(self, obj: JObject) -> Invocation {
        match self.refusal(obj, self.is_closure(obj)) {
            Some(e) => Invocation::Refused(e),
            None => if self.bound_elsewhere(obj) {
                Invocation::WrongThread
            } else {
                match self.closure(obj).state {
                    ClosureState::Armed => if self.closure(obj).action is Some {
                        Invocation::Run
                    } else {
                        Invocation::Skip
                    },
                    ClosureState::Running => Invocation::Deadlock,
                    ClosureState::Consumed => Invocation::Skip,
                    ClosureState::Closed => Invocation::Skip,
                }
            },
        }
    }

    /// The managed side after the thread-affinity violation was reported: the
    /// exception for it is pending. `class` is the index of its class.
    pub open spec fn with_wrong_thread(self, class: int) -> EnvView<F, P> {
        self.with_thrown(class, None)
    }

    /// The closure record of `obj` as the start of an invocation leaves it:
    /// a call-once record gives its closure up for good, a call-mutably
    /// record for the duration of the call, and a call-repeatedly record
    /// keeps it.
    pub open spec fn entered(self, obj: JObject) -> ClosureRecord<F>
        recommends
            self.is_closure(obj),
    {
        let rec = self.closure(obj);
        match rec.contract {
            CallContract::Once => ClosureRecord {
                state: ClosureState::Consumed,
                action: None,
                ..rec
            },
            CallContract::Mut => ClosureRecord { state: ClosureState::Running, action: None, ..rec },
            CallContract::Repeat => rec,
        }
    }
}

/// The closure record that a new closure object starts with.
pub open spec fn armed<F>(contract: CallContract, local: bool, owner: u64, action: Action<F>)
    -> ClosureRecord<F> {
    ClosureRecord { contract, local, owner, state: ClosureState::Armed, action: Some(action) }
}

/// Whether `r` and `after` are what exposing `action` under `contract` comes
/// to on `before`: a new closure object, armed with the action and owned by
/// the calling thread, is the last on the heap.
pub open spec fn exposed<F, P>(
    before: EnvView<F, P>,
    contract: CallContract,
    action: Action<F>,
    local: bool,
    r: Result<JObject, Error>,
    after: EnvView<F, P>,
) -> bool {
    if before.pending is Some {
        r == Err::<JObject, Error>(Error::JavaException) && after == before
    } else {
        match before.class_named(FN_ADAPTER_CLASS@) {
            None => r == Err::<JObject, Error>(Error::ClassNotFound) && after == before,
            Some(c) => {
                &&& r matches Ok(obj) && obj.id == before.heap.len() + 1
                &&& after == before.with_new(
                    c,
                    ObjectView::Closure(armed(contract, local, before.thread, action)),
                )
            },
        }
    }
}

/// Exposes `action` to the managed side under `contract`. The new object is
/// bound to the calling thread if `local` is set. Rejected while an
/// exception is pending; fails with `ClassNotFound` if the class of closure
/// objects is not loaded. On failure the action is dropped.
pub fn expose<F, P>(env: &mut Env<F, P>, contract: CallContract, action: Action<F>, local: bool)
    -> (r: Result<JObject, Error>)
    ensures
        exposed(old(env)@, contract, action, local, r, final(env)@),
        r is Err ==> *final(env) == *old(env),
{
    let c = match env.find_class(FN_ADAPTER_CLASS) {
        Ok(c) => c,
        Err(e) => {
            return Err(e);
        },
    };
    let rec = ClosureRecord {
        contract,
        local,
        owner: env.thread,
        state: ClosureState::Armed,
        action: Some(action),
    };
    Ok(env.allocate(c, ObjectData::Closure(rec)))
}

/// Exposes `f` under the call-repeatedly contract: every invocation runs
/// the body, also while it is already running.
pub fn fn_adapter<F, P>(env: &mut Env<F, P>, f: F, local: bool) -> (r: Result<JObject, Error>)
    ensures
        exposed(old(env)@, CallContract::Repeat, Action::Native(f), local, r, final(env)@),
        r is Err ==> *final(env) == *old(env),
{
    expose(env, CallContract::Repeat, Action::Native(f), local)
}

/// Exposes `f` under the call-once contract: the first invocation runs the
/// body, every later one does nothing.
pub fn fn_once_adapter<F, P>(env: &mut Env<F, P>, f: F, local: bool) -> (r: Result<JObject, Error>)
    ensures
        exposed(old(env)@, CallContract::Once, Action::Native(f), local, r, final(env)@),
        r is Err ==> *final(env) == *old(env),
{
    expose(env, CallContract::Once, Action::Native(f), local)
}

/// Exposes `f` under the call-mutably contract: every invocation runs the
/// body, one at a time.
pub fn fn_mut_adapter<F, P>(env: &mut Env<F, P>, f: F, local: bool) -> (r: Result<JObject, Error>)
    ensures
        exposed(old(env)@, CallContract::Mut, Action::Native(f), local, r, final(env)@),
        r is Err ==> *final(env) == *old(env),
{
    expose(env, CallContract::Mut, Action::Native(f), local)
}

/// The managed side after a native body or teardown ended with `outcome`:
/// unchanged if it ended normally or if the class of panic exceptions is not
/// loaded, else with the panic exception for its unwind payload raised (see
/// [`panic_raised`]).
pub open spec fn after_unwind<F, P: PanicPayload>(env: EnvView<F, P>, outcome: Result<(), P>)
    -> EnvView<F, P> {
    match outcome {
        Ok(()) => env,
        Err(payload) => match env.class_named(PANIC_EXCEPTION_CLASS@) {
            Some(c) => panic_raised(env, c, payload),
            None => env,
        },
    }
}

/// What a call on a closure object returns once its body ended with `body`
/// and the teardown that followed, if there was one, with `teardown`, and the
/// managed side is `after`: an unwind that could not be raised as an exception
/// is an error of its own; otherwise the call fails exactly if an exception is
/// pending.
pub open spec fn verdict<F, P: PanicPayload>(
    after: EnvView<F, P>,
    body: Result<(), P>,
    teardown: Result<(), P>,
) -> Result<(), Error> {
    if (body is Err || teardown is Err) && after.class_named(PANIC_EXCEPTION_CLASS@) is None {
        Err(Error::ClassNotFound)
    } else if after.pending is Some {
        Err(Error::JavaException)
    } else {
        Ok(())
    }
}

/// Whether `r` is what releasing `action` can end with: a closure is
/// disposed of, which ends as its own teardown says; a wake capability is
/// dropped, which ends normally.
pub open spec fn released<F: NativeFn<P>, P>(action: Action<F>, r: Result<(), P>) -> bool {
    match action {
        Action::Native(f) => call_ensures(F::dispose, (f,), r),
        Action::Wake(_) => r is Ok,
    }
}

/// Releases an action that no record holds any more. A wake capability is
/// dropped, not signalled.
pub fn release<F: NativeFn<P>, P>(action: Action<F>) -> (r: Result<(), P>)
    ensures
        released(action, r),
{
    match action {
        Action::Native(f) => {
            let dispose = F::dispose;
            dispose(f)
        },
        Action::Wake(_) => Ok(()),
    }
}

/// Turns the ends of a native body and of the teardown after it into the
/// state of the managed side and the result of the call: each unwind is
/// raised as a panic exception, the body's first.
pub fn report<F, P: PanicPayload>(env: &mut Env<F, P>, body: Result<(), P>, teardown: Result<(), P>)
    -> (r: Result<(), Error>)
    ensures
        final(env)@ == after_unwind(after_unwind(old(env)@, body), teardown),
        r == verdict(final(env)@, body, teardown),
{
    let mut lost = false;
    if let Err(payload) = body {
        if raise_panic(env, payload).is_err() {
            lost = true;
        }
    }
    if let Err(payload) = teardown {
        if raise_panic(env, payload).is_err() {
            lost = true;
        }
    }
    if lost {
        Err(Error::ClassNotFound)
    } else if env.exception_check() {
        Err(Error::JavaException)
    } else {
        Ok(())
    }
}

impl<F: NativeFn<P>, P: PanicPayload> Env<F, P> {
    /// Reports that a thread-bound object was used from the wrong thread:
    /// raises the exception for it.
    fn refuse_thread(&mut self) -> (r: Result<(), Error>)
        requires
            old(self)@.pending is None,
        ensures
            match old(self)@.class_named(LOCAL_THREAD_EXCEPTION_CLASS@) {
                Some(c) => r == Err::<(), Error>(Error::JavaException) && final(self)@ == old(self)@.with_wrong_thread(c),
                None => r == Err::<(), Error>(Error::ClassNotFound) && *final(self) == *old(self),
            },
    {
        match self.throw_new(LOCAL_THREAD_EXCEPTION_CLASS, None) {
            Ok(()) => Err(Error::JavaException),
            Err(e) => Err(e),
        }
    }

    /// Starts an invocation of the closure object `obj`: decides whether the
    /// body runs and, if it does, hands out the closure to run. A call-once
    /// record gives its closure up for good, a call-mutably record until
    /// [`leave`](Env::leave) puts it back, and a call-repeatedly record hands
    /// out a second handle and keeps its own.
    pub fn enter(&mut self, obj: JObject) -> (r: Result<Option<Action<F>>, Error>)
        ensures
            old(self)@.invocation(obj) matches Invocation::Refused(e) ==> r == Err::<
                Option<Action<F>>,
                Error,
            >(e) && *final(self) == *old(self),
            old(self)@.invocation(obj) is WrongThread ==> match old(self)@.class_named(
                LOCAL_THREAD_EXCEPTION_CLASS@,
            ) {
                Some(c) => r == Err::<Option<Action<F>>, Error>(Error::JavaException) && final(self)@ == old(self)@.with_wrong_thread(c),
                None => r == Err::<Option<Action<F>>, Error>(Error::ClassNotFound) && *final(self)
                    == *old(self),
            },
            old(self)@.invocation(obj) is Skip ==> r == Ok::<Option<Action<F>>, Error>(None)
                && *final(self) == *old(self),
            old(self)@.invocation(obj) is Deadlock ==> r == Err::<Option<Action<F>>, Error>(
                Error::Deadlock,
            ) && *final(self) == *old(self),
            old(self)@.invocation(obj) is Run ==> {
                &&& r matches Ok(Some(action))
                &&& final(self)@ == old(self)@.with_closure(obj, old(self)@.entered(obj))
                &&& old(self)@.closure(obj).contract !is Repeat ==> Some(action) == old(self)@.closure(obj).action
                &&& action is Wake == old(self)@.closure(obj).action->Some_0 is Wake
                &&& action matches Action::Wake(handed) ==> handed == handed_capability(
                    old(self)@.closure(obj).contract,
                    old(self)@.closure(obj).action->Some_0->Wake_0,
                )
                &&& action matches Action::Native(handed) ==> handed_out(
                    old(self)@.closure(obj).contract,
                    held_by(old(self)@, obj),
                    handed,
                )
            },
    {
        if self.exception_check() {
            return Err(Error::JavaException);
        }
        let i = match self.index_of(obj) {
            Some(i) => i,
            None => {
                return Err(Error::NullPtr);
            },
        };
        let (local, owner, state, contract, present) = match &self.heap[i].data {
            ObjectData::Closure(rec) => (
                rec.local,
                rec.owner,
                rec.state,
                rec.contract,
                rec.action.is_some(),
            ),
            _ => {
                return Err(Error::WrongObjectType);
            },
        };
        if local && owner != self.thread {
            return match self.refuse_thread() {
                Ok(()) => Ok(None),
                Err(e) => Err(e),
            };
        }
        match state {
            ClosureState::Armed => {},
            ClosureState::Running => {
                return Err(Error::Deadlock);
            },
            ClosureState::Consumed => {
                return Ok(None);
            },
            ClosureState::Closed => {
                return Ok(None);
            },
        }
        if !present {
            return Ok(None);
        }
        let ghost before = self.heap@;
        match contract {
            CallContract::Once => {
                let action = match &mut self.heap[i].data {
                    ObjectData::Closure(rec) => {
                        rec.state = ClosureState::Consumed;
                        rec.action.take()
                    },
                    _ => None,
                };
                proof {
                    lemma_heap_update(before, self.heap@, i as int);
                }
                Ok(action)
            },
            CallContract::Mut => {
                let action = match &mut self.heap[i].data {
                    ObjectData::Closure(rec) => {
                        rec.state = ClosureState::Running;
                        rec.action.take()
                    },
                    _ => None,
                };
                proof {
                    lemma_heap_update(before, self.heap@, i as int);
                }
                Ok(action)
            },
            CallContract::Repeat => {
                let action = match &self.heap[i].data {
                    ObjectData::Closure(rec) => match &rec.action {
                        Some(Action::Native(f)) => {
                            let share = F::share;
                            Some(Action::Native(share(f)))
                        },
                        Some(Action::Wake(w)) => Some(Action::Wake(clone_waker(w))),
                        None => None,
                    },
                    _ => None,
                };
                proof {
                    assert(self@.heap =~= old(self)@.with_closure(obj, old(self)@.entered(obj)).heap);
                }
                Ok(action)
            },
        }
    }

    /// Ends an invocation of the closure object `obj`, whose body ran as
    /// `action`. A call-mutably record that is still running takes its
    /// closure back and is armed again; in every other case the action is
    /// handed back to the caller to be released.
    pub fn leave(&mut self, obj: JObject, action: Action<F>) -> (r: Option<Action<F>>)
        ensures
            if old(self)@.is_closure(obj) && old(self)@.closure(obj).state is Running {
                &&& r is None
                &&& final(self)@ == old(self)@.with_closure(
                    obj,
                    ClosureRecord {
                        state: ClosureState::Armed,
                        action: Some(action),
                        ..old(self)@.closure(obj)
                    },
                )
            } else {
                r == Some(action) && final(self)@ == old(self)@
            },
    {
        let i = match self.index_of(obj) {
            Some(i) => i,
            None => {
                return Some(action);
            },
        };
        let ghost before = self.heap@;
        let r = match &mut self.heap[i].data {
            ObjectData::Closure(rec) => match rec.state {
                ClosureState::Running => {
                    rec.state = ClosureState::Armed;
                    rec.action = Some(action);
                    None
                },
                _ => Some(action),
            },
            _ => Some(action),
        };
        proof {
            lemma_heap_update(before, self.heap@, i as int);
            if r is Some {
                assert(self@.heap =~= old(self)@.heap);
            }
        }
        r
    }
}

impl<F, P> EnvView<F, P> {
    /// The managed side after the closure object `obj`, whose action is to
    /// wake a task, was invoked: a call-once record has given the capability
    /// up, any other record is as before.
    pub open spec fn woken(self, obj: JObject) -> EnvView<F, P>
        recommends
            self.is_closure(obj),
    {
        if self.closure(obj).contract is Once {
            self.with_closure(obj, self.entered(obj))
        } else {
            self
        }
    }

    /// The managed side after the closure object `obj` was disposed of and
    /// before the closure it held is released.
    pub open spec fn closed(self, obj: JObject) -> EnvView<F, P>
        recommends
            self.is_closure(obj),
    {
        self.with_closure(
            obj,
            ClosureRecord { state: ClosureState::Closed, action: None, ..self.closure(obj) },
        )
    }
}

/// The capability that a record with the contract `contract` hands out when
/// it holds the capability `held`: the capability itself, which the record
/// gives up, under the call-once and call-mutably contracts; a second handle
/// to it under the call-repeatedly contract.
pub open spec fn handed_capability(contract: CallContract, held: Waker) -> Waker {
    if contract is Repeat {
        cloned_capability(held)
    } else {
        held
    }
}

/// The capability that invoking the closure object `obj`, whose action is
/// to wake a task, returns to be signalled: the capability that the record
/// holds, if the record gives it up for good, and a second handle to it, if
/// the record keeps it.
pub open spec fn to_signal<F, P>(env: EnvView<F, P>, obj: JObject) -> Waker
    recommends
        env.is_closure(obj),
        env.closure(obj).action matches Some(Action::Wake(_)),
{
    let held = env.closure(obj).action->Some_0->Wake_0;
    if env.closure(obj).contract is Once {
        held
    } else {
        cloned_capability(held)
    }
}

/// The result of an invocation that ran a native body: it has nothing to
/// signal.
pub open spec fn silent(r: Result<(), Error>) -> Result<Option<Waker>, Error> {
    match r {
        Ok(()) => Ok(None),
        Err(e) => Err(e),
    }
}

/// Whether the result `r` of a call that ran a native body or teardown
/// accounts for the state `after` that the call left: it succeeds only with
/// no exception pending, and it fails either with `Error::JavaException` and
/// an exception pending, or with `Error::ClassNotFound` because an unwind
/// could not be raised for want of the class of panic exceptions.
pub open spec fn accounted<T, F, P>(r: Result<T, Error>, after: EnvView<F, P>) -> bool {
    match r {
        Ok(_) => after.pending is None,
        Err(e) => (e == Error::JavaException && after.pending is Some) || (e
            == Error::ClassNotFound && after.class_named(PANIC_EXCEPTION_CLASS@) is None),
    }
}

/// Whether the closure `handed` is what a record with the contract
/// `contract` hands out to run when it holds the closure `held`: a second
/// handle to it, as its own sharing says, under the call-repeatedly contract;
/// the closure itself under the other two.
pub open spec fn handed_out<F: NativeFn<P>, P>(contract: CallContract, held: F, handed: F) -> bool {
    if contract is Repeat {
        call_ensures(F::share, (&held,), handed)
    } else {
        handed == held
    }
}

/// Whether invoking the closure object `obj` runs a native closure.
pub open spec fn runs_native<F, P>(env: EnvView<F, P>, obj: JObject) -> bool {
    env.invocation(obj) is Run && env.closure(obj).action->Some_0 is Native
}

/// The native closure that the closure object `obj` holds.
pub open spec fn held_by<F, P>(env: EnvView<F, P>, obj: JObject) -> F
    recommends
        runs_native(env, obj),
{
    env.closure(obj).action->Some_0->Native_0
}

/// Whether the closure object `obj` takes its closure back at the end of a
/// body that left the managed side as `body_end`: it does if it is still
/// running, that is, if it is call-mutably and was not disposed of meanwhile.
pub open spec fn takes_back<F, P>(body_end: EnvView<F, P>, obj: JObject) -> bool {
    body_end.is_closure(obj) && body_end.closure(obj).state is Running
}

/// The managed side after the body that ran as `f` has ended and left it as
/// `body_end`, and before any unwind is raised: a record that takes its
/// closure back is armed with `f` again.
pub open spec fn settled<F, P>(body_end: EnvView<F, P>, obj: JObject, f: F) -> EnvView<F, P> {
    if takes_back(body_end, obj) {
        body_end.with_closure(
            obj,
            ClosureRecord {
                state: ClosureState::Armed,
                action: Some(Action::Native(f)),
                ..body_end.closure(obj)
            },
        )
    } else {
        body_end
    }
}

/// Whether `teardown` is what can become of the closure `f` at the end of a
/// body that left the managed side as `body_end`: nothing, if the record
/// takes it back; else it is disposed of, which ends as its own teardown
/// says.
pub open spec fn left<F: NativeFn<P>, P>(
    body_end: EnvView<F, P>,
    obj: JObject,
    f: F,
    teardown: Result<(), P>,
) -> bool {
    if takes_back(body_end, obj) {
        teardown is Ok
    } else {
        call_ensures(F::dispose, (f,), teardown)
    }
}

/// Whether `r` and `after` are what invoking the closure object `obj` on
/// `before` comes to. Where the body that runs is a user-supplied closure,
/// this says only that the result of the call accounts for the state that
/// the call leaves (see [`accounted`]); [`Env::run`] says what the body
/// runs on and what becomes of its end.
pub open spec fn invoked<F, P>(
    before: EnvView<F, P>,
    obj: JObject,
    r: Result<Option<Waker>, Error>,
    after: EnvView<F, P>,
) -> bool {
    match before.invocation(obj) {
        Invocation::Refused(e) => r == Err::<Option<Waker>, Error>(e) && after == before,
        Invocation::WrongThread => match before.class_named(LOCAL_THREAD_EXCEPTION_CLASS@) {
            Some(c) => r == Err::<Option<Waker>, Error>(Error::JavaException) && after
                == before.with_wrong_thread(c),
            None => r == Err::<Option<Waker>, Error>(Error::ClassNotFound) && after == before,
        },
        Invocation::Skip => r == Ok::<Option<Waker>, Error>(None) && after == before,
        Invocation::Deadlock => r == Err::<Option<Waker>, Error>(Error::Deadlock) && after
            == before,
        Invocation::Run => {
            &&& before.closure(obj).action->Some_0 is Wake ==> r == Ok::<Option<Waker>, Error>(
                Some(to_signal(before, obj)),
            ) && after == before.woken(obj)
            &&& before.closure(obj).action->Some_0 is Native ==> (r is Ok ==> r->Ok_0 is None)
            &&& accounted(r, after)
        },
    }
}

/// Whether `r` and `after` are what disposing of the closure object `obj` on
/// `before` comes to. The record is closed, and the closure that it held is
/// released, which ends as [`released`] says.
pub open spec fn disposed<F: NativeFn<P>, P: PanicPayload>(
    before: EnvView<F, P>,
    obj: JObject,
    r: Result<(), Error>,
    after: EnvView<F, P>,
) -> bool {
    match before.refusal(obj, before.is_closure(obj)) {
        Some(e) => r == Err::<(), Error>(e) && after == before,
        None => if before.bound_elsewhere(obj) {
            match before.class_named(LOCAL_THREAD_EXCEPTION_CLASS@) {
                Some(c) => r == Err::<(), Error>(Error::JavaException) && after
                    == before.with_wrong_thread(c),
                None => r == Err::<(), Error>(Error::ClassNotFound) && after == before,
            }
        } else {
            &&& exists|teardown: Result<(), P>|
                {
                    &&& match before.closure(obj).action {
                        Some(action) => released(action, teardown),
                        None => teardown is Ok,
                    }
                    &&& after == #[trigger] after_unwind(before.closed(obj), teardown)
                    &&& r == verdict(after, Ok(()), teardown)
                }
            &&& accounted(r, after)
        },
    }
}

impl<F: NativeFn<P>, P: PanicPayload> Env<F, P> {
    /// A second handle to the wake capability that the closure object `obj`
    /// holds, if it holds one.
    pub fn spare_capability(&self, obj: JObject) -> (r: Option<Waker>)
        ensures
            r == if self@.is_closure(obj) && self@.closure(obj).action is Some && self@.closure(
                obj,
            ).action->Some_0 is Wake {
                Some(cloned_capability(self@.closure(obj).action->Some_0->Wake_0))
            } else {
                None
            },
    {
        match self.index_of(obj) {
            Some(i) => match &self.heap[i].data {
                ObjectData::Closure(rec) => match &rec.action {
                    Some(Action::Wake(waker)) => Some(clone_waker(waker)),
                    _ => None,
                },
                _ => None,
            },
            None => None,
        }
    }

    /// Invokes the closure object `obj` from the calling thread.
    ///
    /// Thread affinity is checked first: an object bound to another thread
    /// raises the exception for that and nothing else happens. A consumed or
    /// disposed closure does nothing. A call-mutably closure that is already
    /// running fails with `Error::Deadlock`. Otherwise the body runs with
    /// `obj` as its `this`; if it unwinds, the payload is raised as a panic
    /// exception. The call fails with `Error::JavaException` whenever it
    /// leaves an exception pending.
    ///
    /// A record whose action is to wake a task runs no body: the call
    /// returns the capability to signal (see [`to_signal`]), and signalling
    /// it is the caller's part. Every other invocation returns `None`.
    ///
    /// A user-supplied body runs on the managed side as the start of the
    /// invocation left it (see [`enter`](Env::enter)) and ends as its own
    /// contract says. After it the record takes the closure back or the
    /// closure is released (see [`leave`](Env::leave)), and the unwinds of
    /// body and teardown are raised (see [`report`]).
    pub fn run(&mut self, obj: JObject) -> (r: Result<Option<Waker>, Error>)
        ensures
            invoked(old(self)@, obj, r, final(self)@),
            runs_native(old(self)@, obj) ==> exists|
                f: &mut F,
                env: &mut Env<F, P>,
                body: Result<(), P>,
                teardown: Result<(), P>,
            |
                {
                    &&& handed_out(
                        old(self)@.closure(obj).contract,
                        held_by(old(self)@, obj),
                        *f,
                    )
                    &&& (*env)@ == old(self)@.with_closure(obj, old(self)@.entered(obj))
                    &&& #[trigger] call_ensures(F::invoke, (f, env, obj), body)
                    &&& #[trigger] left((*final(env))@, obj, *final(f), teardown)
                    &&& final(self)@ == after_unwind(
                        after_unwind(settled((*final(env))@, obj, *final(f)), body),
                        teardown,
                    )
                    &&& r == silent(verdict(final(self)@, body, teardown))
                },
    {
        let action = match self.enter(obj) {
            Ok(Some(action)) => action,
            Ok(None) => {
                return Ok(None);
            },
            Err(e) => {
                return Err(e);
            },
        };
        match action {
            Action::Wake(handed) => {
                let ghost entered = self@;
                let rest = self.leave(obj, Action::Wake(handed));
                proof {
                    let rec = old(self)@.closure(obj);
                    if rec.contract is Mut {
                        assert(self@.heap =~= old(self)@.heap);
                    } else if rec.contract is Repeat {
                        assert(entered.heap =~= old(self)@.heap);
                    }
                }
                match rest {
                    Some(Action::Wake(signal)) => Ok(Some(signal)),
                    Some(Action::Native(_)) => Ok(None),
                    None => Ok(self.spare_capability(obj)),
                }
            },
            Action::Native(mut f) => {
                let invoke = F::invoke;
                let body = invoke(&mut f, self, obj);
                let ghost body_end = self@;
                let ghost f_end = f;
                let teardown = match self.leave(obj, Action::Native(f)) {
                    Some(action) => release(action),
                    None => Ok(()),
                };
                assert(left(body_end, obj, f_end, teardown));
                match report(self, body, teardown) {
                    Ok(()) => Ok(None),
                    Err(e) => Err(e),
                }
            },
        }
    }

    /// Disposes of the closure object `obj` from the calling thread: the
    /// record is closed and the closure it held, if any, is released without
    /// being run. Thread affinity is checked first. A closure whose teardown
    /// unwinds has the payload raised as a panic exception. Disposing of a
    /// consumed or closed record releases nothing.
    pub fn close(&mut self, obj: JObject) -> (r: Result<(), Error>)
        ensures
            disposed(old(self)@, obj, r, final(self)@),
    {
        if self.exception_check() {
            return Err(Error::JavaException);
        }
        let i = match self.index_of(obj) {
            Some(i) => i,
            None => {
                return Err(Error::NullPtr);
            },
        };
        let (local, owner) = match &self.heap[i].data {
            ObjectData::Closure(rec) => (rec.local, rec.owner),
            _ => {
                return Err(Error::WrongObjectType);
            },
        };
        if local && owner != self.thread {
            return self.refuse_thread();
        }
        let ghost before = self.heap@;
        let action = match &mut self.heap[i].data {
            ObjectData::Closure(rec) => {
                rec.state = ClosureState::Closed;
                rec.action.take()
            },
            _ => None,
        };
        proof {
            lemma_heap_update(before, self.heap@, i as int);
        }
        let teardown = match action {
            Some(action) => release(action),
            None => Ok(()),
        };
        report(self, Ok(()), teardown)
    }
}

/// Exposes `f` as a runnable object that runs it at most once. The object
/// may be used from any thread. See [`fn_once_adapter`].
pub fn fn_once_runnable<F, P>(env: &mut Env<F, P>, f: F) -> (r: Result<JObject, Error>)
    ensures
        exposed(old(env)@, CallContract::Once, Action::Native(f), false, r, final(env)@),
        r is Err ==> *final(env) == *old(env),
{
    fn_once_adapter(env, f, false)
}

/// Exposes `f` as a runnable object that runs it at most once and may only
/// be used from the calling thread. See [`fn_once_adapter`].
pub fn fn_once_runnable_local<F, P>(env: &mut Env<F, P>, f: F) -> (r: Result<JObject, Error>)
    ensures
        exposed(old(env)@, CallContract::Once, Action::Native(f), true, r, final(env)@),
        r is Err ==> *final(env) == *old(env),
{
    fn_once_adapter(env, f, true)
}

/// Exposes `f` as a runnable object that runs it one invocation at a time.
/// The object may be used from any thread. See [`fn_mut_adapter`].
pub fn fn_mut_runnable<F, P>(env: &mut Env<F, P>, f: F) -> (r: Result<JObject, Error>)
    ensures
        exposed(old(env)@, CallContract::Mut, Action::Native(f), false, r, final(env)@),
        r is Err ==> *final(env) == *old(env),
{
    fn_mut_adapter(env, f, false)
}

/// Exposes `f` as a runnable object that runs it one invocation at a time
/// and may only be used from the calling thread. See [`fn_mut_adapter`].
pub fn fn_mut_runnable_local<F, P>(env: &mut Env<F, P>, f: F) -> (r: Result<JObject, Error>)
    ensures
        exposed(old(env)@, CallContract::Mut, Action::Native(f), true, r, final(env)@),
        r is Err ==> *final(env) == *old(env),
{
    fn_mut_adapter(env, f, true)
}

/// Exposes `f` as a runnable object that runs it on every invocation. The
/// object may be used from any thread. See [`fn_adapter`].
pub fn fn_runnable<F, P>(env: &mut Env<F, P>, f: F) -> (r: Result<JObject, Error>)
    ensures
        exposed(old(env)@, CallContract::Repeat, Action::Native(f), false, r, final(env)@),
        r is Err ==> *final(env) == *old(env),
{
    fn_adapter(env, f, false)
}

/// Exposes `f` as a runnable object that runs it on every invocation and
/// may only be used from the calling thread. See [`fn_adapter`].
pub fn fn_runnable_local<F, P>(env: &mut Env<F, P>, f: F) -> (r: Result<JObject, Error>)
    ensures
        exposed(old(env)@, CallContract::Repeat, Action::Native(f), true, r, final(env)@),
        r is Err ==> *final(env) == *old(env),
{
    fn_adapter(env, f, true)
}

/// A call-once closure runs at most once: once an invocation of it has
/// started, invoking it again does nothing.
pub proof fn law_once_runs_once<F, P>(env: EnvView<F, P>, obj: JObject)
    requires
        env.invocation(obj) is Run,
        env.closure(obj).contract is Once,
    ensures
        env.with_closure(obj, env.entered(obj)).invocation(obj) is Skip,
        forall|r: Result<Option<Waker>, Error>, after: EnvView<F, P>|
            invoked(env.with_closure(obj, env.entered(obj)), obj, r, after) ==> r == Ok::<
                Option<Waker>,
                Error,
            >(None) && after == env.with_closure(obj, env.entered(obj)),
{
}

/// Disposing of a call-once closure after it was invoked releases nothing
/// and raises nothing: only the record is closed.
pub proof fn law_dispose_after_invocation<F: NativeFn<P>, P: PanicPayload>(
    env: EnvView<F, P>,
    obj: JObject,
    r: Result<(), Error>,
    after: EnvView<F, P>,
)
    requires
        env.invocation(obj) is Skip,
        env.closure(obj).state is Consumed,
        env.closure(obj).action is None,
        disposed(env, obj, r, after),
    ensures
        r == Ok::<(), Error>(()),
        after == env.closed(obj),
        after.closure(obj) == (ClosureRecord {
            state: ClosureState::Closed,
            ..env.closure(obj)
        }),
{
}

/// Disposing of a closure before it was invoked keeps its body from ever
/// running: the record gives the closure up, and invoking it afterwards does
/// nothing.
pub proof fn law_dispose_before_invocation<F, P>(env: EnvView<F, P>, obj: JObject)
    requires
        env.invocation(obj) is Run,
    ensures
        env.closed(obj).closure(obj).action is None,
        env.closed(obj).invocation(obj) is Skip,
{
}

/// A call-mutably closure that is invoked while it runs is reported as a
/// deadlock: its body does not run a second time at once.
pub proof fn law_mut_reentry_deadlocks<F, P>(env: EnvView<F, P>, obj: JObject)
    requires
        env.invocation(obj) is Run,
        env.closure(obj).contract is Mut,
    ensures
        env.with_closure(obj, env.entered(obj)).invocation(obj) is Deadlock,
        forall|r: Result<Option<Waker>, Error>, after: EnvView<F, P>|
            invoked(env.with_closure(obj, env.entered(obj)), obj, r, after) ==> r == Err::<
                Option<Waker>,
                Error,
            >(Error::Deadlock) && after == env.with_closure(obj, env.entered(obj)),
{
}

/// The managed side after `n` invocations of the closure object `obj` have
/// started.
pub open spec fn entered_times<F, P>(env: EnvView<F, P>, obj: JObject, n: nat) -> EnvView<F, P>
    decreases n,
{
    if n == 0 {
        env
    } else {
        let before = entered_times(env, obj, (n - 1) as nat);
        before.with_closure(obj, before.entered(obj))
    }
}

/// A call-repeatedly closure runs once per invocation, however many
/// invocations have started and not ended: none is lost or merged.
pub proof fn law_repeat_runs_every_time<F, P>(env: EnvView<F, P>, obj: JObject, n: nat)
    requires
        env.invocation(obj) is Run,
        env.closure(obj).contract is Repeat,
    ensures
        entered_times(env, obj, n) == env,
        entered_times(env, obj, n).invocation(obj) is Run,
    decreases n,
{
    if n > 0 {
        law_repeat_runs_every_time(env, obj, (n - 1) as nat);
        assert(env.with_closure(obj, env.entered(obj)).heap =~= env.heap);
    }
}

/// Whether a closure that is not bound to a thread runs does not depend on
/// the thread that invokes it.
pub proof fn law_unbound_closure_runs_on_any_thread<F, P>(
    env: EnvView<F, P>,
    obj: JObject,
    thread: u64,
)
    requires
        env.is_closure(obj),
        !env.closure(obj).local,
    ensures
        (EnvView { thread, ..env }).invocation(obj) == env.invocation(obj),
{
}

/// A closure that is bound to a thread is refused on every other thread,
/// whatever its state.
pub proof fn law_bound_closure_is_refused_elsewhere<F, P>(
    env: EnvView<F, P>,
    obj: JObject,
    thread: u64,
)
    requires
        env.is_closure(obj),
        env.pending is None,
        env.closure(obj).local,
        thread != env.closure(obj).owner,
    ensures
        (EnvView { thread, ..env }).invocation(obj) is WrongThread,
{
}

/// No step of an invocation arms a closure record again that was consumed
/// or closed: invoking it is refused or does nothing, and the end of a body
/// that ran meanwhile, for this or for another object, leaves the record as
/// it is. This speaks of the operations of this module. The fields of the
/// managed side are public, and code that writes a record directly is not
/// bound by it.
pub proof fn law_spent_record_stays_spent<F, P>(env: EnvView<F, P>, obj: JObject, f: F)
    requires
        env.is_closure(obj),
        env.closure(obj).state is Consumed || env.closure(obj).state is Closed,
    ensures
        !(env.invocation(obj) is Run),
        !(env.invocation(obj) is Deadlock),
        !takes_back(env, obj),
        settled(env, obj, f) == env,
        forall|r: Result<Option<Waker>, Error>, after: EnvView<F, P>|
            #![trigger invoked(env, obj, r, after)]
            invoked(env, obj, r, after) ==> after.is_closure(obj) && after.closure(obj)
                == env.closure(obj),
{
}

} // verus!
