//! The managed side: classes, object heap, pending-exception slot, calling
//! thread and runtime identity, with the boundary operations that the bridge
//! is built from.
//!
//! A boundary operation other than those that inspect, clear or raise the
//! pending exception is refused with [`Error::JavaException`] while an
//! exception is pending.
use vstd::prelude::*;
use crate::classes::{
    class_named, derives, lemma_class_named, lemma_first_named_resolves, loadable, loaded,
    ClassTable,
};
use crate::errors::Error;
use crate::objects::{
    ClassView, GlobalRef, JObject, JThrowable, JavaVM, ObjectData, ObjectRecord, ObjectView,
    RecordView, ThrowableData, ThrowableView,
};

verus! {

/// Name of the root class.
pub const OBJECT_CLASS: &'static str = "java/lang/Object";

/// Name of the root of all exception classes.
pub const THROWABLE_CLASS: &'static str = "java/lang/Throwable";

/// The managed side as the bridge sees it: the loaded classes, the object
/// heap, the pending-exception slot of the calling thread, the identity of
/// that thread and the identity of the runtime.
///
/// `F` is the type of native closures that objects may hold, `P` the type of
/// unwind payloads.
pub struct Env<F, P> {
    pub classes: ClassTable,
    pub heap: Vec<ObjectRecord<F, P>>,
    /// The pending-exception slot.
    pub pending: Option<JThrowable>,
    /// Identity of the thread that is currently calling.
    pub thread: u64,
    /// Identity of the managed runtime that this is.
    pub vm: u64,
}

/// Mathematical view of [`Env`].
pub struct EnvView<F, P> {
    pub classes: Seq<ClassView>,
    pub heap: Seq<RecordView<F, P>>,
    pub pending: Option<JThrowable>,
    pub thread: u64,
    pub vm: u64,
}

/// The views of the records of a heap, in heap order.
pub open spec fn heap_view<F, P>(heap: Seq<ObjectRecord<F, P>>) -> Seq<RecordView<F, P>> {
    Seq::new(heap.len(), |i: int| heap[i]@)
}

impl<F, P> View for Env<F, P> {
    type V = EnvView<F, P>;

    open spec fn view(&self) -> EnvView<F, P> {
        EnvView {
            classes: self.classes@,
            heap: heap_view(self.heap@),
            pending: self.pending,
            thread: self.thread,
            vm: self.vm,
        }
    }
}

impl<F, P> EnvView<F, P> {
    /// Whether `obj` names an object on the heap.
    pub open spec fn valid(self, obj: JObject) -> bool {
        1 <= obj.id <= self.heap.len()
    }

    /// The record that `obj` names.
    pub open spec fn record(self, obj: JObject) -> RecordView<F, P>
        recommends
            self.valid(obj),
    {
        self.heap[obj.id - 1]
    }

    /// The state of the object that `obj` names.
    pub open spec fn data(self, obj: JObject) -> ObjectView<F, P>
        recommends
            self.valid(obj),
    {
        self.heap[obj.id - 1].data
    }

    /// Whether `obj` is an exception object.
    pub open spec fn is_throwable(self, obj: JObject) -> bool {
        self.valid(obj) && self.data(obj) is Throwable
    }

    /// Index of the class called `name`, if it is loaded.
    pub open spec fn class_named(self, name: Seq<char>) -> Option<int> {
        class_named(self.classes, name)
    }

    /// Whether `obj` is an instance of the loaded class with index `class`.
    /// The null reference is an instance of every class.
    pub open spec fn instance_of(self, obj: JObject, class: int) -> bool {
        obj.id == 0 || (self.valid(obj) && derives(self.classes, self.record(obj).class, class))
    }

    /// This environment with `pending` in the pending-exception slot.
    pub open spec fn with_pending(self, pending: Option<JThrowable>) -> EnvView<F, P> {
        EnvView { pending, ..self }
    }

    /// This environment with `data` as the state of the object `obj`.
    pub open spec fn with_data(self, obj: JObject, data: ObjectView<F, P>) -> EnvView<F, P>
        recommends
            self.valid(obj),
    {
        EnvView {
            heap: self.heap.update(obj.id - 1, RecordView { class: self.record(obj).class, data }),
            ..self
        }
    }

    /// Why a call on the object `obj` is refused before it starts, if it is:
    /// an exception is pending, `obj` names no object, or the object is not
    /// of a kind that the call applies to (`applies` says whether it is).
    pub open spec fn refusal(self, obj: JObject, applies: bool) -> Option<Error> {
        if self.pending is Some {
            Some(Error::JavaException)
        } else if !self.valid(obj) {
            Some(Error::NullPtr)
        } else if !applies {
            Some(Error::WrongObjectType)
        } else {
            None
        }
    }

    /// The handle that the next allocation returns.
    pub open spec fn next_handle(self) -> JObject {
        JObject { id: (self.heap.len() + 1) as u64 }
    }

    /// This environment with one more object at the end of the heap.
    pub open spec fn with_new(self, class: int, data: ObjectView<F, P>) -> EnvView<F, P> {
        EnvView { heap: self.heap.push(RecordView { class, data }), ..self }
    }
}

/// Whether `a` is `b` with `pending` in the pending-exception slot.
pub open spec fn differs_in_pending<F, P>(
    a: Env<F, P>,
    b: Env<F, P>,
    pending: Option<JThrowable>,
) -> bool {
    &&& a.classes == b.classes
    &&& a.heap == b.heap
    &&& a.thread == b.thread
    &&& a.vm == b.vm
    &&& a.pending == pending
}

/// Replacing one record of a heap replaces its view at the same place.
pub proof fn lemma_heap_update<F, P>(
    before: Seq<ObjectRecord<F, P>>,
    after: Seq<ObjectRecord<F, P>>,
    i: int,
)
    requires
        0 <= i < before.len(),
        after == before.update(i, after[i]),
    ensures
        heap_view(after) == heap_view(before).update(i, after[i]@),
{
}

/// Appending a record to a heap appends its view.
pub proof fn lemma_heap_push<F, P>(before: Seq<ObjectRecord<F, P>>, rec: ObjectRecord<F, P>)
    ensures
        heap_view(before.push(rec)) == heap_view(before).push(rec@),
{
}

impl<F, P> Env<F, P> {
    /// Whether a managed exception is pending.
    pub fn exception_check(&self) -> (r: bool)
        ensures
            r == self@.pending is Some,
    {
        self.pending.is_some()
    }

    /// The pending exception, or the null reference if there is none.
    pub fn exception_occurred(&self) -> (r: JThrowable)
        ensures
            match self@.pending {
                Some(ex) => r == ex,
                None => r.obj.id == 0,
            },
    {
        match self.pending {
            Some(ex) => ex,
            None => JThrowable { obj: JObject { id: 0 } },
        }
    }

    /// Empties the pending-exception slot.
    pub fn exception_clear(&mut self)
        ensures
            differs_in_pending(*final(self), *old(self), None),
            final(self)@ == old(self)@.with_pending(None),
    {
        self.pending = None;
    }

    /// Heap index of `obj`, if it names an object.
    pub fn index_of(&self, obj: JObject) -> (r: Option<usize>)
        ensures
            match r {
                Some(i) => self@.valid(obj) && i == obj.id - 1,
                None => !self@.valid(obj),
            },
    {
        if obj.id >= 1 && obj.id - 1 < self.heap.len() as u64 {
            Some((obj.id - 1) as usize)
        } else {
            None
        }
    }

    /// Index of the class of the object `obj`. Rejected while an exception
    /// is pending; fails with `NullPtr` if `obj` names no object.
    pub fn get_object_class(&self, obj: JObject) -> (r: Result<usize, Error>)
        ensures
            match self@.refusal(obj, true) {
                Some(e) => r == Err::<usize, Error>(e),
                None => r matches Ok(c) && c == self@.record(obj).class,
            },
    {
        if self.pending.is_some() {
            return Err(Error::JavaException);
        }
        match self.index_of(obj) {
            Some(i) => Ok(self.heap[i].class),
            None => Err(Error::NullPtr),
        }
    }

    /// A persistent handle to the object `obj`. Rejected while an exception
    /// is pending.
    pub fn new_global_ref(&self, obj: JObject) -> (r: Result<GlobalRef, Error>)
        ensures
            match self@.pending {
                Some(_) => r == Err::<GlobalRef, Error>(Error::JavaException),
                None => r == Ok::<GlobalRef, Error>(GlobalRef { obj }),
            },
    {
        if self.pending.is_some() {
            Err(Error::JavaException)
        } else {
            Ok(GlobalRef { obj })
        }
    }

    /// The capability to get access to this runtime.
    pub fn get_java_vm(&self) -> (r: Result<JavaVM, Error>)
        ensures
            r == Ok::<JavaVM, Error>(JavaVM { id: self@.vm }),
    {
        Ok(JavaVM { id: self.vm })
    }

    /// Whether two handles name the same object.
    pub fn is_same_object(&self, a: JObject, b: JObject) -> (r: bool)
        ensures
            r == (a == b),
    {
        a.id == b.id
    }

    /// Puts a new object of class `class` on the heap and returns its handle.
    pub fn allocate(&mut self, class: usize, data: ObjectData<F, P>) -> (r: JObject)
        ensures
            r == old(self)@.next_handle(),
            r.id == old(self)@.heap.len() + 1,
            final(self)@ == old(self)@.with_new(class as int, data@),
            final(self)@.valid(r),
            final(self)@.data(r) == data@,
    {
        let rec = ObjectRecord { class, data };
        proof {
            lemma_heap_push(self.heap@, rec);
        }
        self.heap.push(rec);
        JObject { id: self.heap.len() as u64 }
    }
}

/// The classes that every managed side starts with: the root class and,
/// under it, the root of all exception classes.
pub open spec fn boot_classes() -> Seq<ClassView> {
    loaded(
        loaded(Seq::empty(), OBJECT_CLASS@, None),
        THROWABLE_CLASS@,
        Some(OBJECT_CLASS@),
    )
}

/// The classes that every managed side starts with are two: the root class
/// at index `0`, and the root exception class at index `1`, which derives
/// from it.
pub proof fn law_boot_classes()
    ensures
        boot_classes() == seq![
            ClassView { name: OBJECT_CLASS@, parent: None },
            ClassView { name: THROWABLE_CLASS@, parent: Some(0int) },
        ],
        class_named(boot_classes(), OBJECT_CLASS@) == Some(0int),
        class_named(boot_classes(), THROWABLE_CLASS@) == Some(1int),
        derives(boot_classes(), 1, 0),
{
    reveal_strlit("java/lang/Object");
    reveal_strlit("java/lang/Throwable");
    let none = Seq::<ClassView>::empty();
    lemma_class_named(none, OBJECT_CLASS@);
    let one = loaded(none, OBJECT_CLASS@, None);
    lemma_first_named_resolves(one, OBJECT_CLASS@, 0);
    assert(OBJECT_CLASS@.len() != THROWABLE_CLASS@.len());
    lemma_class_named(one, THROWABLE_CLASS@);
    let two = boot_classes();
    lemma_first_named_resolves(two, OBJECT_CLASS@, 0);
    lemma_first_named_resolves(two, THROWABLE_CLASS@, 1);
    assert(derives(two, 0, 0));
}

/// The state of an exception object that was just constructed.
pub open spec fn fresh_throwable<P>(message: Option<Seq<char>>) -> ThrowableView<P> {
    ThrowableView { message, cause: JObject { id: 0 }, suppressed: Seq::empty(), payload: None }
}

impl<F, P> EnvView<F, P> {
    /// Whether the loaded class with index `class` is an exception class.
    pub open spec fn is_throwable_class(self, class: int) -> bool {
        match self.class_named(THROWABLE_CLASS@) {
            Some(t) => derives(self.classes, class, t),
            None => false,
        }
    }

    /// The state that a new object of the class with index `class` starts in.
    pub open spec fn fresh_data(self, class: int) -> ObjectView<F, P> {
        if self.is_throwable_class(class) {
            ObjectView::Throwable(fresh_throwable(None))
        } else {
            ObjectView::Plain
        }
    }

    /// The exception state of `obj`.
    pub open spec fn throwable(self, obj: JObject) -> ThrowableView<P>
        recommends
            self.is_throwable(obj),
    {
        self.data(obj)->Throwable_0
    }
}

impl<F, P> Env<F, P> {
    /// A managed side with the identity `vm`, an empty heap, no pending
    /// exception, the calling thread `0`, and the root class and the root
    /// exception class loaded.
    pub fn with_identity(vm: u64) -> (r: Env<F, P>)
        ensures
            r@ == (EnvView::<F, P> {
                classes: boot_classes(),
                heap: Seq::empty(),
                pending: None,
                thread: 0,
                vm,
            }),
    {
        let mut classes = ClassTable::new();
        let _ = classes.define(OBJECT_CLASS, None);
        let _ = classes.define(THROWABLE_CLASS, Some(OBJECT_CLASS));
        let r = Env { classes, heap: Vec::new(), pending: None, thread: 0, vm };
        assert(r@.heap =~= Seq::empty());
        r
    }

    /// A managed side with the identity `0`. See
    /// [`with_identity`](Env::with_identity).
    pub fn new() -> (r: Env<F, P>)
        ensures
            r@ == (EnvView::<F, P> {
                classes: boot_classes(),
                heap: Seq::empty(),
                pending: None,
                thread: 0,
                vm: 0,
            }),
    {
        Env::with_identity(0)
    }

    /// Makes `thread` the calling thread.
    pub fn set_thread(&mut self, thread: u64)
        ensures
            final(self)@ == (EnvView { thread, ..old(self)@ }),
    {
        self.thread = thread;
    }

    /// Loads the class `name` under the superclass called `parent`. A name
    /// that is loaded already keeps its definition. Rejected while an
    /// exception is pending; fails with `ClassNotFound`, loading nothing,
    /// when the class is new and its superclass is not loaded.
    pub fn define_class(&mut self, name: &str, parent: Option<&str>) -> (r: Result<(), Error>)
        ensures
            old(self)@.pending is Some ==> r == Err::<(), Error>(Error::JavaException) && *final(self) == *old(self),
            old(self)@.pending is None ==> {
                let parent_name = match parent {
                    Some(p) => Some(p@),
                    None => None,
                };
                &&& final(self)@ == (EnvView {
                    classes: loaded(old(self)@.classes, name@, parent_name),
                    ..old(self)@
                })
                &&& r == if loadable(old(self)@.classes, name@, parent_name) {
                    Ok::<(), Error>(())
                } else {
                    Err::<(), Error>(Error::ClassNotFound)
                }
            },
    {
        if self.pending.is_some() {
            return Err(Error::JavaException);
        }
        match self.classes.define(name, parent) {
            Ok(_) => Ok(()),
            Err(e) => Err(e),
        }
    }

    /// Looks a loaded class up by name. Rejected while an exception is
    /// pending.
    pub fn find_class(&self, name: &str) -> (r: Result<usize, Error>)
        ensures
            match r {
                Ok(c) => self@.pending is None && self@.class_named(name@) == Some(c as int),
                Err(e) => if self@.pending is Some {
                    e == Error::JavaException
                } else {
                    e == Error::ClassNotFound && self@.class_named(name@) is None
                },
            },
    {
        if self.pending.is_some() {
            return Err(Error::JavaException);
        }
        match self.classes.find(name) {
            Some(c) => Ok(c),
            None => Err(Error::ClassNotFound),
        }
    }

    /// Whether the loaded class with index `class` is an exception class.
    pub fn is_throwable_class(&self, class: usize) -> (r: bool)
        ensures
            r == self@.is_throwable_class(class as int),
    {
        match self.classes.find(THROWABLE_CLASS) {
            Some(t) => self.classes.is_subclass(class, t),
            None => false,
        }
    }

    /// Constructs an object of the class called `class` with its default
    /// constructor. Rejected while an exception is pending.
    pub fn new_object(&mut self, class: &str) -> (r: Result<JObject, Error>)
        ensures
            match r {
                Ok(obj) => {
                    &&& old(self)@.pending is None
                    &&& old(self)@.class_named(class@) matches Some(c)
                    &&& obj == old(self)@.next_handle()
                    &&& obj.id == old(self)@.heap.len() + 1
                    &&& final(self)@ == old(self)@.with_new(c, old(self)@.fresh_data(c))
                    &&& final(self)@.valid(obj)
                },
                Err(e) => {
                    &&& final(self)@ == old(self)@
                    &&& if old(self)@.pending is Some {
                        e == Error::JavaException
                    } else {
                        e == Error::ClassNotFound && old(self)@.class_named(class@) is None
                    }
                },
            },
    {
        let c = match self.find_class(class) {
            Ok(c) => c,
            Err(e) => {
                return Err(e);
            },
        };
        let data = if self.is_throwable_class(c) {
            let t = ThrowableData {
                message: None,
                cause: JObject { id: 0 },
                suppressed: Vec::new(),
                payload: None,
            };
            ObjectData::Throwable(t)
        } else {
            ObjectData::Plain
        };
        Ok(self.allocate(c, data))
    }

    /// Whether `obj` is an instance of the class called `class`. Rejected
    /// while an exception is pending.
    pub fn is_instance_of(&self, obj: JObject, class: &str) -> (r: Result<bool, Error>)
        ensures
            match r {
                Ok(b) => {
                    &&& self@.pending is None
                    &&& self@.class_named(class@) matches Some(c)
                    &&& (obj.id == 0 || self@.valid(obj))
                    &&& b == self@.instance_of(obj, c)
                },
                Err(e) => if self@.pending is Some {
                    e == Error::JavaException
                } else if self@.class_named(class@) is None {
                    e == Error::ClassNotFound
                } else {
                    e == Error::NullPtr && obj.id != 0 && !self@.valid(obj)
                },
            },
    {
        let c = match self.find_class(class) {
            Ok(c) => c,
            Err(e) => {
                return Err(e);
            },
        };
        if obj.id == 0 {
            return Ok(true);
        }
        match self.index_of(obj) {
            Some(i) => Ok(self.classes.is_subclass(self.heap[i].class, c)),
            None => Err(Error::NullPtr),
        }
    }

    /// Raises `ex`: puts it in the pending-exception slot, replacing what was
    /// there. Fails with `NullPtr` if `ex` names no object and with
    /// `WrongObjectType` if the object is no exception.
    pub fn throw(&mut self, ex: JThrowable) -> (r: Result<(), Error>)
        ensures
            match r {
                Ok(()) => old(self)@.is_throwable(ex.obj) && final(self)@ == old(self)@.with_pending(
                    Some(ex),
                ),
                Err(e) => {
                    &&& final(self)@ == old(self)@
                    &&& !old(self)@.is_throwable(ex.obj)
                    &&& e == if old(self)@.valid(ex.obj) {
                        Error::WrongObjectType
                    } else {
                        Error::NullPtr
                    }
                },
            },
    {
        match self.index_of(ex.obj) {
            Some(i) => match &self.heap[i].data {
                ObjectData::Throwable(_) => {
                    self.pending = Some(ex);
                    Ok(())
                },
                _ => Err(Error::WrongObjectType),
            },
            None => Err(Error::NullPtr),
        }
    }
}

impl<F, P> EnvView<F, P> {
    /// This environment after an exception of the class with index `class`,
    /// with the message `message`, was constructed and raised.
    pub open spec fn with_thrown(self, class: int, message: Option<Seq<char>>) -> EnvView<F, P> {
        self.with_new(class, ObjectView::Throwable(fresh_throwable(message))).with_pending(
            Some(JThrowable { obj: self.next_handle() }),
        )
    }
}

impl<F, P> Env<F, P> {
    /// Constructs an exception of the class called `class` with the message
    /// `message` and raises it. Rejected while an exception is pending.
    pub fn throw_new(&mut self, class: &str, message: Option<&str>) -> (r: Result<(), Error>)
        ensures
            match r {
                Ok(()) => {
                    &&& old(self)@.pending is None
                    &&& old(self)@.class_named(class@) matches Some(c)
                    &&& final(self)@ == old(self)@.with_thrown(
                        c,
                        match message {
                            Some(m) => Some(m@),
                            None => None,
                        },
                    )
                },
                Err(e) => {
                    &&& *final(self) == *old(self)
                    &&& if old(self)@.pending is Some {
                        e == Error::JavaException
                    } else {
                        e == Error::ClassNotFound && old(self)@.class_named(class@) is None
                    }
                },
            },
    {
        let c = match self.find_class(class) {
            Ok(c) => c,
            Err(e) => {
                return Err(e);
            },
        };
        let state = ThrowableData {
            message: match message {
                Some(m) => Some(m.to_owned()),
                None => None,
            },
            cause: JObject { id: 0 },
            suppressed: Vec::new(),
            payload: None,
        };
        let obj = self.allocate(c, ObjectData::Throwable(state));
        self.pending = Some(JThrowable { obj });
        Ok(())
    }
}

impl JavaVM {
    /// Checks that `env` gives access to the runtime that this capability
    /// names; fails with `ThreadDetached` if it is another runtime.
    pub fn acquire<F, P>(&self, env: &Env<F, P>) -> (r: Result<(), Error>)
        ensures
            r == if env@.vm == self.id {
                Ok::<(), Error>(())
            } else {
                Err::<(), Error>(Error::ThreadDetached)
            },
    {
        if env.vm == self.id {
            Ok(())
        } else {
            Err(Error::ThreadDetached)
        }
    }
}

} // verus!
