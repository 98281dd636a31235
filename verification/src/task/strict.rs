//! Managed wakers that hold their wake capability in a slot until they are
//! finalized, and report a wake that comes after that.
use vstd::prelude::*;
use std::task::Waker;
use crate::env::{lemma_heap_update, Env, EnvView};
use crate::errors::Error;
use crate::objects::{JObject, ObjectData, ObjectView, WakerData};
use crate::task::{woken_up, WAKER_CLASS};
use crate::wake::{clone_waker, cloned_capability};

verus! {

/// Name of the class of the exception that waking a finalized waker raises.
pub const NULL_POINTER_EXCEPTION_CLASS: &'static str = "java/lang/NullPointerException";

/// Message of the exception that waking a finalized waker raises.
pub const FINALIZED_MESSAGE: &'static str = "This Waker has already been finalized";

/// Wraps the wake capability `capability` in a managed waker object that holds
/// the capability in a slot. Waking the object returns a second handle to
/// the capability, to be signalled, and keeps the capability; finalizing the
/// object empties the slot, and waking it after
/// that is reported as an error instead of being ignored.
///
/// Rejected while an exception is pending; fails with `ClassNotFound` if the
/// class of waker objects is not loaded. On failure the capability is
/// dropped.
pub fn waker<F, P>(env: &mut Env<F, P>, capability: Waker) -> (r: Result<JObject, Error>)
    ensures
        match r {
            Ok(obj) => {
                &&& old(env)@.pending is None
                &&& old(env)@.class_named(WAKER_CLASS@) matches Some(w)
                &&& obj.id == old(env)@.heap.len() + 1
                &&& final(env)@ == old(env)@.with_new(
                    w,
                    ObjectView::Waker(WakerData::Slot(Some(capability))),
                )
            },
            Err(e) => {
                &&& *final(env) == *old(env)
                &&& if old(env)@.pending is Some {
                    e == Error::JavaException
                } else {
                    e == Error::ClassNotFound && old(env)@.class_named(WAKER_CLASS@) is None
                }
            },
        },
{
    let w = match env.find_class(WAKER_CLASS) {
        Ok(w) => w,
        Err(e) => {
            return Err(e);
        },
    };
    Ok(env.allocate(w, ObjectData::Waker(WakerData::Slot(Some(capability)))))
}

/// Whether `r` and `after` are what waking a waker object whose slot holds
/// `slot` comes to on `before`, where no exception is pending: a filled slot
/// keeps its capability, a second handle to it is returned to be signalled,
/// and nothing on the managed side changes; an empty slot raises the
/// exception that says that the waker was finalized.
pub open spec fn slot_woken<F, P>(
    before: EnvView<F, P>,
    slot: Option<Waker>,
    r: Result<Option<Waker>, Error>,
    after: EnvView<F, P>,
) -> bool {
    match slot {
        Some(capability) => r == Ok::<Option<Waker>, Error>(
            Some(cloned_capability(capability)),
        ) && after == before,
        None => match before.class_named(NULL_POINTER_EXCEPTION_CLASS@) {
            Some(c) => r == Err::<Option<Waker>, Error>(Error::JavaException) && after
                == before.with_thrown(
                c,
                Some(FINALIZED_MESSAGE@),
            ),
            None => r == Err::<Option<Waker>, Error>(Error::ClassNotFound) && after == before,
        },
    }
}

/// Wakes the waker object `obj`, which holds its capability in a slot: returns
/// a second handle to the capability, which the caller signals. Refused with
/// `WrongObjectType` for any other object.
pub fn waker_wake_impl<F, P>(env: &mut Env<F, P>, obj: JObject) -> (r: Result<Option<Waker>, Error>)
    ensures
        match old(env)@.refusal(
            obj,
            old(env)@.is_waker(obj) && old(env)@.waker(obj) is Slot,
        ) {
            Some(e) => r == Err::<Option<Waker>, Error>(e) && final(env)@ == old(env)@,
            None => slot_woken(old(env)@, old(env)@.waker(obj)->Slot_0, r, final(env)@),
        },
{
    if env.exception_check() {
        return Err(Error::JavaException);
    }
    let i = match env.index_of(obj) {
        Some(i) => i,
        None => {
            return Err(Error::NullPtr);
        },
    };
    match &env.heap[i].data {
        ObjectData::Waker(WakerData::Slot(Some(waker))) => Ok(Some(clone_waker(waker))),
        ObjectData::Waker(WakerData::Slot(None)) => {
            match env.throw_new(NULL_POINTER_EXCEPTION_CLASS, Some(FINALIZED_MESSAGE)) {
                Ok(()) => Err(Error::JavaException),
                Err(e) => Err(e),
            }
        },
        _ => Err(Error::WrongObjectType),
    }
}

/// Finalizes the waker object `obj`: empties its slot and releases the
/// capability that was in it. Any other object is left alone. Finalization
/// is not a boundary call: it happens whether or not an exception is
/// pending.
pub fn waker_finalize<F, P>(env: &mut Env<F, P>, obj: JObject)
    ensures
        final(env)@ == if old(env)@.is_waker(obj) && old(env)@.waker(obj) is Slot {
            old(env)@.with_data(obj, ObjectView::Waker(WakerData::Slot(None)))
        } else {
            old(env)@
        },
{
    let i = match env.index_of(obj) {
        Some(i) => i,
        None => {
            return ;
        },
    };
    let ghost before = env.heap@;
    match &mut env.heap[i].data {
        ObjectData::Waker(WakerData::Slot(slot)) => {
            let _ = slot.take();
        },
        _ => {},
    }
    proof {
        lemma_heap_update(before, env.heap@, i as int);
        if !(old(env)@.is_waker(obj) && old(env)@.waker(obj) is Slot) {
            assert(env@.heap =~= old(env)@.heap);
        }
    }
}

/// Waking a finalized waker of the kind that holds its capability in a slot
/// is reported: the exception that says so is raised.
pub proof fn law_finalized_waker_reports<F, P>(
    env: EnvView<F, P>,
    waker: JObject,
    r: Result<Option<Waker>, Error>,
    after: EnvView<F, P>,
)
    requires
        env.pending is None,
        env.is_waker(waker),
        env.waker(waker) == WakerData::Slot(None),
        env.class_named(NULL_POINTER_EXCEPTION_CLASS@) is Some,
        woken_up(env, waker, r, after),
    ensures
        r == Err::<Option<Waker>, Error>(Error::JavaException),
        after == env.with_thrown(
            env.class_named(NULL_POINTER_EXCEPTION_CLASS@)->Some_0,
            Some(FINALIZED_MESSAGE@),
        ),
        after.pending is Some,
{
}

/// Waking a waker whose slot is filled signals by reference: the call
/// returns a second handle to the capability in the slot, and the slot keeps
/// the capability, so that the waker can be woken again.
pub proof fn law_slot_waker_keeps_its_capability<F, P>(
    env: EnvView<F, P>,
    waker: JObject,
    capability: Waker,
    r: Result<Option<Waker>, Error>,
    after: EnvView<F, P>,
)
    requires
        env.pending is None,
        env.is_waker(waker),
        env.waker(waker) == WakerData::Slot(Some(capability)),
        woken_up(env, waker, r, after),
    ensures
        r == Ok::<Option<Waker>, Error>(Some(cloned_capability(capability))),
        after == env,
        after.waker(waker) == WakerData::Slot(Some(capability)),
{
}

} // verus!
