//! Handles to managed objects, and what the objects on the managed heap
//! hold.
use vstd::prelude::*;
use std::task::Waker;

verus! {

/// Handle to an object on the managed side. The handle `0` is the null
/// reference; any other handle `h` names the object stored at heap index
/// `h - 1`.
#[derive(Clone, Copy, Debug, PartialEq, Eq, Structural)]
pub struct JObject {
    pub id: u64,
}

impl JObject {
    /// The null reference.
    pub fn null() -> (r: JObject)
        ensures
            r.id == 0,
    {
        JObject { id: 0 }
    }

    /// Whether this is the null reference.
    pub fn is_null(&self) -> (r: bool)
        ensures
            r == (self.id == 0),
    {
        self.id == 0
    }
}

/// Handle to a managed object used as an exception.
#[derive(Clone, Copy, Debug, PartialEq, Eq, Structural)]
pub struct JThrowable {
    pub obj: JObject,
}

impl JThrowable {
    /// Views an object handle as a throwable handle.
    pub fn from_object(obj: JObject) -> (r: JThrowable)
        ensures
            r.obj == obj,
    {
        JThrowable { obj }
    }

    /// The underlying object handle.
    pub fn into_object(self) -> (r: JObject)
        ensures
            r == self.obj,
    {
        self.obj
    }
}

/// Persistent handle: stays valid across threads and task suspensions until
/// it is released.
#[derive(Clone, Copy, Debug, PartialEq, Eq, Structural)]
pub struct GlobalRef {
    pub obj: JObject,
}

impl GlobalRef {
    /// The object that the persistent handle keeps alive.
    pub fn as_obj(&self) -> (r: JObject)
        ensures
            r == self.obj,
    {
        self.obj
    }
}

/// The capability to get access to a managed runtime from whatever thread
/// holds it. It names the runtime by its identity.
#[derive(Clone, Copy, Debug, PartialEq, Eq, Structural)]
pub struct JavaVM {
    pub id: u64,
}

/// One loaded class: its binary name and the index of its direct superclass
/// in the class table (`None` for a root class).
pub struct ClassInfo {
    pub name: String,
    pub parent: Option<usize>,
}

/// The native wake capability, which signals a task to be polled again. The
/// type is opaque here: a value of it is only carried, handed out to be
/// signalled, and released.
#[verifier::external_type_specification]
#[verifier::external_body]
pub struct ExWaker(Waker);

/// The three call contracts under which a native closure can be exposed.
#[derive(Clone, Copy, Debug, PartialEq, Eq, Structural)]
pub enum CallContract {
    /// The body runs at most once; later invocations do nothing.
    Once,
    /// The body runs any number of times, one invocation at a time.
    Mut,
    /// The body runs any number of times, also while it is already running.
    Repeat,
}

/// State of a closure record.
#[derive(Clone, Copy, Debug, PartialEq, Eq, Structural)]
pub enum ClosureState {
    /// The closure is present and may be invoked.
    Armed,
    /// A call-mutably closure is executing its body.
    Running,
    /// A call-once closure has been invoked.
    Consumed,
    /// The closure was disposed of.
    Closed,
}

/// What a closure record does when it is invoked.
pub enum Action<F> {
    /// Run a native closure supplied by the user.
    Native(F),
    /// Signal a task to be polled again.
    Wake(Waker),
}

/// A native closure exposed to the managed side.
pub struct ClosureRecord<F> {
    pub contract: CallContract,
    /// `true` if the record may only be used from the thread that created it.
    pub local: bool,
    /// The thread that created the record.
    pub owner: u64,
    pub state: ClosureState,
    /// The closure; present while the record holds one.
    pub action: Option<Action<F>>,
}

/// State of a managed exception object.
pub struct ThrowableData<P> {
    pub message: Option<String>,
    /// The exception that caused this one, or null.
    pub cause: JObject,
    /// Exceptions that were pending when this one was raised over them.
    pub suppressed: Vec<JThrowable>,
    /// The native unwind payload that a panic exception carries until it is
    /// taken.
    pub payload: Option<P>,
}

/// State of a managed waker object.
pub enum WakerData {
    /// Delegates `wake` and `close` to a call-once closure record.
    Runnable(JObject),
    /// Holds the wake capability in a slot that finalization empties.
    Slot(Option<Waker>),
}

/// A completed poll: either a value or the exception that reading it raises.
pub struct PollData {
    pub value: JObject,
    pub failure: Option<JThrowable>,
}

/// A single-value completion source.
pub struct FutureSource {
    /// The waker stored by the last poll that found no result, or null.
    pub waker: JObject,
    /// The poll result object, once the producer has completed the source.
    pub result: Option<JObject>,
}

/// A multi-value completion source backed by a queue.
pub struct StreamSource {
    pub queue: Vec<JObject>,
    pub finished: bool,
    /// The waker stored by the last poll that found nothing to deliver, or null.
    pub waker: JObject,
}

/// What an object on the managed heap holds.
pub enum ObjectData<F, P> {
    /// No state that the bridge looks at.
    Plain,
    Throwable(ThrowableData<P>),
    Closure(ClosureRecord<F>),
    Waker(WakerData),
    PollResult(PollData),
    /// One item of a stream, wrapped so that it can be told from end-of-stream.
    StreamPoll(JObject),
    Future(FutureSource),
    Stream(StreamSource),
    /// A 128-bit identifier as its most and least significant halves.
    Uuid(i64, i64),
    ByteArray(Vec<i8>),
}

/// An object on the managed heap: its class and its state.
pub struct ObjectRecord<F, P> {
    /// Index of the object's class in the class table.
    pub class: usize,
    pub data: ObjectData<F, P>,
}

/// Mathematical view of [`ClassInfo`].
pub struct ClassView {
    pub name: Seq<char>,
    pub parent: Option<int>,
}

impl View for ClassInfo {
    type V = ClassView;

    open spec fn view(&self) -> ClassView {
        ClassView {
            name: self.name@,
            parent: match self.parent {
                Some(p) => Some(p as int),
                None => None,
            },
        }
    }
}

/// Mathematical view of [`ThrowableData`].
pub struct ThrowableView<P> {
    pub message: Option<Seq<char>>,
    pub cause: JObject,
    pub suppressed: Seq<JThrowable>,
    pub payload: Option<P>,
}

impl<P> View for ThrowableData<P> {
    type V = ThrowableView<P>;

    open spec fn view(&self) -> ThrowableView<P> {
        ThrowableView {
            message: match self.message {
                Some(m) => Some(m@),
                None => None,
            },
            cause: self.cause,
            suppressed: self.suppressed@,
            payload: self.payload,
        }
    }
}

/// Mathematical view of [`StreamSource`].
pub struct StreamView {
    pub queue: Seq<JObject>,
    pub finished: bool,
    pub waker: JObject,
}

impl View for StreamSource {
    type V = StreamView;

    open spec fn view(&self) -> StreamView {
        StreamView { queue: self.queue@, finished: self.finished, waker: self.waker }
    }
}

/// Mathematical view of [`ObjectData`].
pub enum ObjectView<F, P> {
    Plain,
    Throwable(ThrowableView<P>),
    Closure(ClosureRecord<F>),
    Waker(WakerData),
    PollResult(PollData),
    StreamPoll(JObject),
    Future(FutureSource),
    Stream(StreamView),
    Uuid(i64, i64),
    ByteArray(Seq<i8>),
}

impl<F, P> View for ObjectData<F, P> {
    type V = ObjectView<F, P>;

    open spec fn view(&self) -> ObjectView<F, P> {
        match *self {
            ObjectData::Plain => ObjectView::Plain,
            ObjectData::Throwable(t) => ObjectView::Throwable(t@),
            ObjectData::Closure(c) => ObjectView::Closure(c),
            ObjectData::Waker(w) => ObjectView::Waker(w),
            ObjectData::PollResult(p) => ObjectView::PollResult(p),
            ObjectData::StreamPoll(o) => ObjectView::StreamPoll(o),
            ObjectData::Future(f) => ObjectView::Future(f),
            ObjectData::Stream(s) => ObjectView::Stream(s@),
            ObjectData::Uuid(most, least) => ObjectView::Uuid(most, least),
            ObjectData::ByteArray(b) => ObjectView::ByteArray(b@),
        }
    }
}

/// Mathematical view of [`ObjectRecord`].
pub struct RecordView<F, P> {
    pub class: int,
    pub data: ObjectView<F, P>,
}

impl<F, P> View for ObjectRecord<F, P> {
    type V = RecordView<F, P>;

    open spec fn view(&self) -> RecordView<F, P> {
        RecordView { class: self.class as int, data: self.data@ }
    }
}

} // verus!
