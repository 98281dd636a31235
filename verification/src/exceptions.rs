//! Try/catch sequences over the pending-exception slot, and exceptions that
//! carry a native unwind payload through the managed side and back.
use vstd::prelude::*;
use crate::env::{differs_in_pending, lemma_heap_update, Env, EnvView};
use crate::errors::Error;
use crate::objects::{JObject, JThrowable, ObjectData, ObjectView, ThrowableData, ThrowableView};

verus! {

/// State of a try/catch sequence: what the tried block produced and, once a
/// catch clause has handled its exception, what that clause produced.
///
/// Start a sequence with [`try_block`], chain [`catch`](TryCatchResult::catch)
/// calls onto it and finish with [`result`](TryCatchResult::result).
pub struct TryCatchResult<T> {
    /// `Err(e)`: the block was not run, because of `e`. `Ok(r)`: the block
    /// ran and returned `r`.
    pub try_result: Result<Result<T, Error>, Error>,
    /// What the catch clause that handled the exception returned.
    pub catch_result: Option<Result<T, Error>>,
}

/// What a catch clause finds when it looks at the chain and at the managed
/// side.
pub enum CatchCase {
    /// Nothing for this clause to do: the chain does not wait for a handler,
    /// no exception is pending, or the pending exception is of another class.
    Pass,
    /// Testing the pending exception against the clause's class failed. The
    /// failure settles the sequence, and the exception stays pending.
    Fail(Error),
    /// The pending exception is an instance of the clause's class.
    Handle(JThrowable),
}

impl<T> TryCatchResult<T> {
    /// Whether the chain still waits for a catch clause: the block failed
    /// with a managed exception and no clause has handled it yet.
    pub open spec fn awaits_catch(self) -> bool {
        self.try_result == Ok::<Result<T, Error>, Error>(Err(Error::JavaException))
            && self.catch_result is None
    }

    /// The chain as a catch clause leaves it when there is nothing for the
    /// clause to do.
    pub open spec fn passed(self) -> TryCatchResult<T> {
        match self.try_result {
            Ok(Err(_)) => self,
            _ => TryCatchResult { try_result: self.try_result, catch_result: None },
        }
    }

    /// The chain after a catch clause handled the exception with `out`.
    pub open spec fn caught(self, out: Result<T, Error>) -> TryCatchResult<T> {
        TryCatchResult { try_result: self.try_result, catch_result: Some(out) }
    }

    /// Whether `r` and `after` are what a clause leaves behind whose handler
    /// returned `out` and left the managed side as `body_end`.
    pub open spec fn handled<F, P>(
        self,
        out: Result<T, Error>,
        body_end: Env<F, P>,
        after: Env<F, P>,
        r: TryCatchResult<T>,
    ) -> bool {
        r == self.caught(out) && after == body_end
    }

    /// What a clause for the class called `class` finds.
    pub open spec fn catch_case<F, P>(self, env: Env<F, P>, class: Seq<char>) -> CatchCase {
        if !self.awaits_catch() {
            CatchCase::Pass
        } else {
            match env@.pending {
                None => CatchCase::Pass,
                Some(ex) => match env@.class_named(class) {
                    None => CatchCase::Fail(Error::ClassNotFound),
                    Some(c) => if ex.obj.id != 0 && !env@.valid(ex.obj) {
                        CatchCase::Fail(Error::NullPtr)
                    } else if env@.instance_of(ex.obj, c) {
                        CatchCase::Handle(ex)
                    } else {
                        CatchCase::Pass
                    },
                },
            }
        }
    }

    /// The result of the whole sequence: the block's value if it succeeded,
    /// else the handling clause's result if there was one, else the error.
    pub open spec fn outcome(self) -> Result<T, Error> {
        match self.try_result {
            Err(e) => Err(e),
            Ok(Ok(v)) => Ok(v),
            Ok(Err(e)) => match self.catch_result {
                Some(r) => r,
                None => Err(e),
            },
        }
    }

    /// Attempts to catch the exception that the tried block raised. If the
    /// chain waits for a handler and the pending exception is an instance of
    /// the class called `class`, the exception is taken out of the pending
    /// slot and `block` runs on it; its result becomes the chain's catch
    /// result. Otherwise `block` does not run and the pending slot is left
    /// as it was; that is also so where the test against the class fails,
    /// for want of the class or of the object, in which case the failure is
    /// the chain's catch result.
    pub fn catch<F, P, B: FnOnce(&mut Env<F, P>, JThrowable) -> Result<T, Error>>(
        self,
        env: &mut Env<F, P>,
        class: &str,
        block: B,
    ) -> (r: TryCatchResult<T>)
        requires
            forall|e: &mut Env<F, P>, ex: JThrowable|
                self.catch_case(*old(env), class@) == CatchCase::Handle(ex) && differs_in_pending(
                    *e,
                    *old(env),
                    None,
                ) ==> #[trigger] call_requires(block, (e, ex)),
        ensures
            self.catch_case(*old(env), class@) is Pass ==> r == self.passed() && *final(env)
                == *old(env),
            self.catch_case(*old(env), class@) matches CatchCase::Fail(e) ==> r == self.caught(
                Err(e),
            ) && *final(env) == *old(env),
            self.catch_case(*old(env), class@) matches CatchCase::Handle(ex) ==> exists|
                e: &mut Env<F, P>,
                out: Result<T, Error>,
            |
                {
                    &&& differs_in_pending(*e, *old(env), None)
                    &&& #[trigger] call_ensures(block, (e, ex), out)
                    &&& self.handled(out, *final(e), *final(env), r)
                },
    {
        match (self.try_result, self.catch_result) {
            (Err(e), _) => TryCatchResult { try_result: Err(e), catch_result: None },
            (Ok(Ok(v)), _) => TryCatchResult { try_result: Ok(Ok(v)), catch_result: None },
            (Ok(Err(e)), Some(c)) => TryCatchResult { try_result: Ok(Err(e)), catch_result: Some(c) },
            (Ok(Err(Error::JavaException)), None) => {
                let unchanged = TryCatchResult {
                    try_result: Ok(Err(Error::JavaException)),
                    catch_result: None,
                };
                if env.exception_check() {
                    let ex = env.exception_occurred();
                    env.exception_clear();
                    match env.is_instance_of(ex.obj, class) {
                        Ok(true) => {
                            assert(self.catch_case(*old(env), class@)->Handle_0 == ex);
                            let out = block(env, ex);
                            TryCatchResult {
                                try_result: Ok(Err(Error::JavaException)),
                                catch_result: Some(out),
                            }
                        },
                        Ok(false) => {
                            env.pending = Some(ex);
                            unchanged
                        },
                        Err(e) => {
                            env.pending = Some(ex);
                            TryCatchResult {
                                try_result: Ok(Err(Error::JavaException)),
                                catch_result: Some(Err(e)),
                            }
                        },
                    }
                } else {
                    unchanged
                }
            },
            (Ok(Err(e)), None) => TryCatchResult { try_result: Ok(Err(e)), catch_result: None },
        }
    }

    /// The result of the try/catch sequence.
    pub fn result(self) -> (r: Result<T, Error>)
        ensures
            r == self.outcome(),
    {
        match (self.try_result, self.catch_result) {
            (Err(e), _) => Err(e),
            (Ok(Ok(v)), _) => Ok(v),
            (Ok(Err(_)), Some(r)) => r,
            (Ok(Err(e)), None) => Err(e),
        }
    }
}

/// Runs `block` unless a managed exception is already pending. If one is,
/// neither `block` nor any catch clause chained onto the result runs, and the
/// sequence ends in `Error::JavaException` with the exception still pending.
pub fn try_block<T, F, P, B: FnOnce(&mut Env<F, P>) -> Result<T, Error>>(
    env: &mut Env<F, P>,
    block: B,
) -> (r: TryCatchResult<T>)
    requires
        forall|e: &mut Env<F, P>|
            old(env)@.pending is None && *e == *old(env) ==> #[trigger] call_requires(block, (e,)),
    ensures
        r.catch_result is None,
        old(env)@.pending is Some ==> r.try_result == Err::<Result<T, Error>, Error>(
            Error::JavaException,
        ) && *final(env) == *old(env),
        old(env)@.pending is None ==> exists|e: &mut Env<F, P>, out: Result<T, Error>|
            {
                &&& *e == *old(env)
                &&& *final(e) == *final(env)
                &&& #[trigger] call_ensures(block, (e,), out)
                &&& r.try_result == Ok::<Result<T, Error>, Error>(out)
            },
{
    if env.exception_check() {
        TryCatchResult { try_result: Err(Error::JavaException), catch_result: None }
    } else {
        let out = block(env);
        TryCatchResult { try_result: Ok(out), catch_result: None }
    }
}

/// Name of the class of the exceptions that carry a native unwind payload.
pub const PANIC_EXCEPTION_CLASS: &'static str = "io/github/gedgygedgy/rust/panic/PanicException";

/// A native unwind payload. A payload that is text has a message, which the
/// exception that carries it displays; any other payload has none.
pub trait PanicPayload {
    /// The text of the payload, if it is text.
    spec fn text(&self) -> Option<Seq<char>>;

    /// The text of the payload, if it is text.
    fn message(&self) -> (r: Option<String>)
        ensures
            r is Some == self.text() is Some,
            r matches Some(m) ==> self.text() == Some(m@),
    ;
}

impl PanicPayload for String {
    open spec fn text(&self) -> Option<Seq<char>> {
        Some(self@)
    }

    fn message(&self) -> (r: Option<String>) {
        Some(self.clone())
    }
}

/// An unwind payload of any type together with the text that was derived
/// from it when the unwind was caught: payloads that are text have one, any
/// other payload has none.
#[derive(Debug)]
pub struct Payload<T> {
    pub message: Option<String>,
    pub value: T,
}

impl<T> Payload<T> {
    /// A payload that is text.
    pub fn with_text(message: String, value: T) -> (r: Payload<T>)
        ensures
            r.message == Some(message),
            r.value == value,
    {
        Payload { message: Some(message), value }
    }

    /// A payload that is not text.
    pub fn other(value: T) -> (r: Payload<T>)
        ensures
            r.message is None,
            r.value == value,
    {
        Payload { message: None, value }
    }
}

/// The message of an unwind payload, derived from what the payload is when
/// it is looked at as a string slice (`text`) and as an owned string
/// (`string`): a payload that is text has its text as the message, and any
/// other payload has none.
pub fn derive_message(text: Option<&str>, string: Option<&String>) -> (r: Option<String>)
    ensures
        match (text, string) {
            (Some(t), _) => r matches Some(m) && m@ == t@,
            (None, Some(s)) => r matches Some(m) && m@ == s@,
            (None, None) => r is None,
        },
{
    match text {
        Some(t) => Some(t.to_owned()),
        None => match string {
            Some(s) => Some(s.clone()),
            None => None,
        },
    }
}

impl<T> PanicPayload for Payload<T> {
    open spec fn text(&self) -> Option<Seq<char>> {
        match self.message {
            Some(m) => Some(m@),
            None => None,
        }
    }

    fn message(&self) -> (r: Option<String>) {
        self.message.clone()
    }
}

/// The state of an exception object that carries `payload`.
pub open spec fn capsule<P: PanicPayload>(payload: P) -> ThrowableView<P> {
    ThrowableView {
        message: payload.text(),
        cause: JObject { id: 0 },
        suppressed: Seq::empty(),
        payload: Some(payload),
    }
}

impl<F, P> EnvView<F, P> {
    /// The payload that the exception `ex` carries, if it is an exception
    /// object that still carries one.
    pub open spec fn payload(self, ex: JThrowable) -> Option<P> {
        if self.is_throwable(ex.obj) {
            self.throwable(ex.obj).payload
        } else {
            None
        }
    }

    /// This environment with the exception state of `ex` replaced by `state`.
    pub open spec fn with_throwable(self, ex: JThrowable, state: ThrowableView<P>) -> EnvView<
        F,
        P,
    > {
        self.with_data(ex.obj, ObjectView::Throwable(state))
    }
}

/// Wrapper for exception objects that carry a native unwind payload. It
/// gives access to the payload: [`get`](JPanicException::get) borrows it and
/// [`take`](JPanicException::take) moves it out.
#[derive(Clone, Copy, Debug)]
pub struct JPanicException {
    pub internal: JThrowable,
}

impl JPanicException {
    /// Wraps the exception object `obj`.
    pub fn from_env<F, P>(env: &Env<F, P>, obj: JThrowable) -> (r: Result<JPanicException, Error>)
        ensures
            r matches Ok(ex) && ex.internal == obj,
    {
        Ok(JPanicException { internal: obj })
    }

    /// The wrapped exception object.
    pub fn as_throwable(&self) -> (r: JThrowable)
        ensures
            r == self.internal,
    {
        self.internal
    }

    /// Constructs a new panic exception that carries `any`. Its message is
    /// the payload's text, if the payload is text. Rejected while an
    /// exception is pending; fails with `ClassNotFound` if the class of panic
    /// exceptions is not loaded. On failure the payload is dropped.
    pub fn new<F, P: PanicPayload>(env: &mut Env<F, P>, any: P) -> (r: Result<
        JPanicException,
        Error,
    >)
        ensures
            match r {
                Ok(ex) => {
                    &&& old(env)@.pending is None
                    &&& old(env)@.class_named(PANIC_EXCEPTION_CLASS@) matches Some(c)
                    &&& ex.internal.obj == old(env)@.next_handle()
                    &&& ex.internal.obj.id == old(env)@.heap.len() + 1
                    &&& final(env)@ == old(env)@.with_new(c, ObjectView::Throwable(capsule(any)))
                    &&& final(env)@.is_throwable(ex.internal.obj)
                    &&& final(env)@.throwable(ex.internal.obj) == capsule(any)
                    &&& final(env)@.payload(ex.internal) == Some(any)
                },
                Err(e) => {
                    &&& final(env)@ == old(env)@
                    &&& if old(env)@.pending is Some {
                        e == Error::JavaException
                    } else {
                        e == Error::ClassNotFound && old(env)@.class_named(PANIC_EXCEPTION_CLASS@)
                            is None
                    }
                },
            },
    {
        let c = match env.find_class(PANIC_EXCEPTION_CLASS) {
            Ok(c) => c,
            Err(e) => {
                return Err(e);
            },
        };
        let state = ThrowableData {
            message: any.message(),
            cause: JObject { id: 0 },
            suppressed: Vec::new(),
            payload: Some(any),
        };
        let obj = env.allocate(c, ObjectData::Throwable(state));
        Ok(JPanicException { internal: JThrowable { obj } })
    }

    /// Borrows the payload. Rejected while an exception is pending; fails
    /// with `NullPtr` if the wrapped object is no exception or carries no
    /// payload (any more).
    pub fn get<'a, F, P>(&self, env: &'a Env<F, P>) -> (r: Result<&'a P, Error>)
        ensures
            match r {
                Ok(p) => env@.pending is None && env@.payload(self.internal) == Some(*p),
                Err(e) => if env@.pending is Some {
                    e == Error::JavaException
                } else {
                    e == Error::NullPtr && env@.payload(self.internal) is None
                },
            },
    {
        if env.exception_check() {
            return Err(Error::JavaException);
        }
        match env.index_of(self.internal.obj) {
            Some(i) => match &env.heap[i].data {
                ObjectData::Throwable(t) => match &t.payload {
                    Some(p) => Ok(p),
                    None => Err(Error::NullPtr),
                },
                _ => Err(Error::NullPtr),
            },
            None => Err(Error::NullPtr),
        }
    }

    /// Moves the payload out of the exception. Rejected while an exception
    /// is pending; fails with `NullPtr` if the wrapped object is no exception
    /// or its payload was already taken.
    pub fn take<F, P>(&self, env: &mut Env<F, P>) -> (r: Result<P, Error>)
        ensures
            match r {
                Ok(p) => {
                    &&& old(env)@.pending is None
                    &&& old(env)@.payload(self.internal) == Some(p)
                    &&& final(env)@ == old(env)@.with_throwable(
                        self.internal,
                        ThrowableView { payload: None, ..old(env)@.throwable(self.internal.obj) },
                    )
                    &&& final(env)@.payload(self.internal) is None
                },
                Err(e) => {
                    &&& final(env)@ == old(env)@
                    &&& if old(env)@.pending is Some {
                        e == Error::JavaException
                    } else {
                        e == Error::NullPtr && old(env)@.payload(self.internal) is None
                    }
                },
            },
    {
        if env.exception_check() {
            return Err(Error::JavaException);
        }
        match env.index_of(self.internal.obj) {
            Some(i) => {
                let ghost before = env.heap@;
                let taken = match &mut env.heap[i].data {
                    ObjectData::Throwable(t) => t.payload.take(),
                    _ => None,
                };
                proof {
                    lemma_heap_update(before, env.heap@, i as int);
                }
                match taken {
                    Some(p) => {
                        Ok(p)
                    },
                    None => {
                        assert(env@.heap =~= old(env)@.heap);
                        Err(Error::NullPtr)
                    },
                }
            },
            None => Err(Error::NullPtr),
        }
    }
}

impl<F, P> Env<F, P> {
    /// The message of the exception `ex`.
    pub fn get_message(&self, ex: JThrowable) -> (r: Result<Option<String>, Error>)
        ensures
            match r {
                Ok(m) => {
                    &&& self@.refusal(ex.obj, self@.is_throwable(ex.obj)) is None
                    &&& m is Some == self@.throwable(ex.obj).message is Some
                    &&& m matches Some(text) ==> self@.throwable(ex.obj).message == Some(text@)
                },
                Err(e) => self@.refusal(ex.obj, self@.is_throwable(ex.obj)) == Some(e),
            },
    {
        if self.exception_check() {
            return Err(Error::JavaException);
        }
        match self.index_of(ex.obj) {
            Some(i) => match &self.heap[i].data {
                ObjectData::Throwable(t) => Ok(t.message.clone()),
                _ => Err(Error::WrongObjectType),
            },
            None => Err(Error::NullPtr),
        }
    }

    /// The cause of the exception `ex`, or null if it has none.
    pub fn get_cause(&self, ex: JThrowable) -> (r: Result<JObject, Error>)
        ensures
            match r {
                Ok(cause) => self@.refusal(ex.obj, self@.is_throwable(ex.obj)) is None && cause
                    == self@.throwable(ex.obj).cause,
                Err(e) => self@.refusal(ex.obj, self@.is_throwable(ex.obj)) == Some(e),
            },
    {
        if self.exception_check() {
            return Err(Error::JavaException);
        }
        match self.index_of(ex.obj) {
            Some(i) => match &self.heap[i].data {
                ObjectData::Throwable(t) => Ok(t.cause),
                _ => Err(Error::WrongObjectType),
            },
            None => Err(Error::NullPtr),
        }
    }

    /// The exceptions that were suppressed in favour of `ex`, oldest first.
    pub fn get_suppressed(&self, ex: JThrowable) -> (r: Result<Vec<JThrowable>, Error>)
        ensures
            match r {
                Ok(list) => self@.refusal(ex.obj, self@.is_throwable(ex.obj)) is None && list@
                    == self@.throwable(ex.obj).suppressed,
                Err(e) => self@.refusal(ex.obj, self@.is_throwable(ex.obj)) == Some(e),
            },
    {
        if self.exception_check() {
            return Err(Error::JavaException);
        }
        match self.index_of(ex.obj) {
            Some(i) => match &self.heap[i].data {
                ObjectData::Throwable(t) => {
                    let mut list: Vec<JThrowable> = Vec::new();
                    let mut k: usize = 0;
                    while k < t.suppressed.len()
                        invariant
                            k <= t.suppressed@.len(),
                            list@ == t.suppressed@.subrange(0, k as int),
                        decreases t.suppressed@.len() - k,
                    {
                        list.push(t.suppressed[k]);
                        k += 1;
                    }
                    Ok(list)
                },
                _ => Err(Error::WrongObjectType),
            },
            None => Err(Error::NullPtr),
        }
    }

    /// Records `other` as suppressed in favour of `ex`.
    pub fn add_suppressed(&mut self, ex: JThrowable, other: JThrowable) -> (r: Result<(), Error>)
        ensures
            match r {
                Ok(()) => {
                    &&& old(self)@.refusal(ex.obj, old(self)@.is_throwable(ex.obj)) is None
                    &&& final(self)@ == old(self)@.with_throwable(
                        ex,
                        ThrowableView {
                            suppressed: old(self)@.throwable(ex.obj).suppressed.push(other),
                            ..old(self)@.throwable(ex.obj)
                        },
                    )
                },
                Err(e) => final(self)@ == old(self)@ && old(self)@.refusal(
                    ex.obj,
                    old(self)@.is_throwable(ex.obj),
                ) == Some(e),
            },
    {
        if self.exception_check() {
            return Err(Error::JavaException);
        }
        match self.index_of(ex.obj) {
            Some(i) => {
                let ghost before = self.heap@;
                let r = match &mut self.heap[i].data {
                    ObjectData::Throwable(t) => {
                        t.suppressed.push(other);
                        Ok(())
                    },
                    _ => Err(Error::WrongObjectType),
                };
                proof {
                    lemma_heap_update(before, self.heap@, i as int);
                    if r is Err {
                        assert(self@.heap =~= old(self)@.heap);
                    }
                }
                r
            },
            None => Err(Error::NullPtr),
        }
    }
}

/// The managed side after a panic exception carrying `payload` was raised on
/// `env` while the class of panic exceptions, with index `class`, was loaded:
/// the new exception is pending, and the exception that was pending before,
/// if any, is recorded in it as suppressed.
pub open spec fn panic_raised<F, P: PanicPayload>(
    env: EnvView<F, P>,
    class: int,
    payload: P,
) -> EnvView<F, P> {
    let state = ThrowableView {
        suppressed: match env.pending {
            Some(prior) => seq![prior],
            None => Seq::empty(),
        },
        ..capsule(payload)
    };
    env.with_new(class, ObjectView::Throwable(state)).with_pending(
        Some(JThrowable { obj: env.next_handle() }),
    )
}

/// Raises a panic exception that carries the unwind payload `payload`. An
/// exception that is pending at that moment is not lost: it is attached to
/// the new exception as suppressed. Fails with `ClassNotFound`, changing
/// nothing, if the class of panic exceptions is not loaded: an exception that
/// is pending then stays pending.
pub fn raise_panic<F, P: PanicPayload>(env: &mut Env<F, P>, payload: P) -> (r: Result<(), Error>)
    ensures
        match old(env)@.class_named(PANIC_EXCEPTION_CLASS@) {
            Some(c) => r == Ok::<(), Error>(()) && final(env)@ == panic_raised(
                old(env)@,
                c,
                payload,
            ),
            None => r == Err::<(), Error>(Error::ClassNotFound) && *final(env) == *old(env),
        },
{
    if env.classes.find(PANIC_EXCEPTION_CLASS).is_none() {
        return Err(Error::ClassNotFound);
    }
    let prior = if env.exception_check() {
        let ex = env.exception_occurred();
        env.exception_clear();
        Some(ex)
    } else {
        None
    };
    let ex = match JPanicException::new(env, payload) {
        Ok(ex) => ex,
        Err(e) => {
            return Err(e);
        },
    };
    if let Some(prior) = prior {
        let _ = env.add_suppressed(ex.internal, prior);
    }
    let _ = env.throw(ex.internal);
    proof {
        let c = old(env)@.class_named(PANIC_EXCEPTION_CLASS@)->Some_0;
        assert(env@.heap =~= panic_raised(old(env)@, c, payload).heap);
    }
    Ok(())
}

/// Whether `r` and `after` are what [`throw_unwind`] makes of a body that
/// returned `out` and left the managed side as `body_end`.
pub open spec fn unwind_converted<R, F, P: PanicPayload>(
    out: Result<R, P>,
    body_end: Env<F, P>,
    after: Env<F, P>,
    r: Result<R, Result<(), Error>>,
) -> bool {
    match out {
        Ok(v) => r == Ok::<R, Result<(), Error>>(v) && after == body_end,
        Err(payload) => match body_end@.class_named(PANIC_EXCEPTION_CLASS@) {
            Some(c) => r == Err::<R, Result<(), Error>>(Ok(())) && after@ == panic_raised(
                body_end@,
                c,
                payload,
            ),
            None => r == Err::<R, Result<(), Error>>(Err(Error::ClassNotFound)) && after
                == body_end,
        },
    }
}

/// Runs `f`. If it ends in an unwind, which it reports by returning the
/// unwind payload as its error, a panic exception carrying the payload is
/// raised as [`raise_panic`] describes, and the result says whether raising
/// it succeeded. If `f` succeeds, its value is returned and the exception
/// state is left as `f` left it.
pub fn throw_unwind<R, F, P: PanicPayload, B: FnOnce(&mut Env<F, P>) -> Result<R, P>>(
    env: &mut Env<F, P>,
    f: B,
) -> (r: Result<R, Result<(), Error>>)
    requires
        forall|e: &mut Env<F, P>| *e == *old(env) ==> #[trigger] call_requires(f, (e,)),
    ensures
        exists|e: &mut Env<F, P>, out: Result<R, P>|
            {
                &&& *e == *old(env)
                &&& #[trigger] call_ensures(f, (e,), out)
                &&& unwind_converted(out, *final(e), *final(env), r)
            },
{
    match f(env) {
        Ok(v) => Ok(v),
        Err(payload) => Err(raise_panic(env, payload)),
    }
}

/// The first clause that handles the exception settles the sequence: every
/// clause after it passes, whatever its class and whatever is pending by
/// then, and the handler's result is the result of the sequence.
pub proof fn law_first_handler_settles<T, F, P>(
    chain: TryCatchResult<T>,
    out: Result<T, Error>,
    env: Env<F, P>,
    class: Seq<char>,
)
    requires
        chain.awaits_catch(),
    ensures
        chain.caught(out).catch_case(env, class) is Pass,
        chain.caught(out).passed() == chain.caught(out),
        chain.caught(out).outcome() == out,
{
}

/// A clause handles the pending exception exactly if the sequence waits
/// for a handler and the exception is an instance of the clause's class: its
/// own class or one that derives from it.
pub proof fn law_clause_matches_by_class<T, F, P>(
    chain: TryCatchResult<T>,
    env: Env<F, P>,
    class: Seq<char>,
    ex: JThrowable,
)
    requires
        chain.awaits_catch(),
        env@.pending == Some(ex),
        env@.valid(ex.obj),
        env@.class_named(class) is Some,
    ensures
        chain.catch_case(env, class) == if env@.instance_of(
            ex.obj,
            env@.class_named(class)->Some_0,
        ) {
            CatchCase::Handle(ex)
        } else {
            CatchCase::Pass
        },
{
}

/// A sequence whose block did not raise a managed exception is settled from
/// the start: every clause passes, and the result is the block's value or
/// its error.
pub proof fn law_settled_sequence_passes<T, F, P>(
    chain: TryCatchResult<T>,
    env: Env<F, P>,
    class: Seq<char>,
)
    requires
        !chain.awaits_catch(),
    ensures
        chain.catch_case(env, class) is Pass,
        chain.passed().outcome() == chain.outcome(),
        chain.passed().catch_case(env, class) is Pass,
{
}

/// A sequence that no clause handled ends in the error of its block.
pub proof fn law_unhandled_sequence_fails<T>(chain: TryCatchResult<T>)
    requires
        chain.awaits_catch(),
    ensures
        chain.outcome() == Err::<T, Error>(Error::JavaException),
{
}

/// A native unwind that was raised as a panic exception is not lost: the
/// exception is pending, it is an instance of the class of panic exceptions,
/// it carries the payload, and the exception that was pending before it, if
/// any, is its one suppressed exception.
pub proof fn law_panic_surfaces_with_payload<F, P: PanicPayload>(
    env: EnvView<F, P>,
    class: int,
    payload: P,
)
    requires
        env.heap.len() < u64::MAX,
        0 <= class < env.classes.len(),
    ensures
        ({
            let after = panic_raised(env, class, payload);
            let ex = JThrowable { obj: env.next_handle() };
            &&& after.pending == Some(ex)
            &&& after.instance_of(ex.obj, class)
            &&& after.payload(ex) == Some(payload)
            &&& after.throwable(ex.obj).message == payload.text()
            &&& after.throwable(ex.obj).suppressed == match env.pending {
                Some(prior) => seq![prior],
                None => Seq::<JThrowable>::empty(),
            }
        }),
{
}

/// Taking the payload of a panic exception leaves none behind: a second
/// take finds nothing.
pub proof fn law_payload_is_taken_once<F, P>(env: EnvView<F, P>, ex: JThrowable)
    requires
        env.payload(ex) is Some,
    ensures
        env.with_throwable(
            ex,
            ThrowableView { payload: None, ..env.throwable(ex.obj) },
        ).payload(ex) is None,
{
}

} // verus!
