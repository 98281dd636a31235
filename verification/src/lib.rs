//! A verified model of a bridge between a poll-based native task runtime
//! and a managed, exception-based object runtime.
//!
//! The managed side is modelled by [`env::Env`]: the loaded classes, the
//! object heap and the pending-exception slot. On top of it stand
//!
//! * try/catch sequences over the pending-exception slot
//!   ([`exceptions::try_block`]),
//! * exceptions that carry a native unwind payload
//!   ([`exceptions::JPanicException`], [`exceptions::throw_unwind`]),
//! * native closures exposed as managed objects under three call contracts
//!   ([`ops`]),
//! * managed wakers, which by default give their capability up on the first
//!   wake and ignore every later one ([`task::waker`]), and of which a
//!   variant reports a wake that comes after finalization
//!   ([`task::strict::waker`]),
//! * poll adapters for single-value and multi-value completion sources
//!   ([`future::JFuture`], [`stream::JStream`]) over the sources of
//!   [`sources`], and
//! * conversions of byte arrays and 128-bit identifiers ([`arrays`],
//!   [`juuid`]).
//!
//! Call [`init`] on a new environment before using any of these.
//!
//! Code that unwinds is not part of this crate: a native body reports an
//! unwind by returning its payload, and a lock that would block forever is
//! reported as [`errors::Error::Deadlock`].
//!
//! Nor does this crate signal a task. Waking a managed waker, and every step
//! of a producer that wakes one, returns the wake capability that is to be
//! signalled, and the caller signals it.
use vstd::prelude::*;

pub mod arrays;
pub mod classes;
pub mod env;
pub mod errors;
pub mod exceptions;
pub mod future;
pub mod objects;
pub mod ops;
pub mod sources;
pub mod stream;
pub mod task;
pub mod juuid;
pub mod wake;

use crate::classes::{lemma_loaded, loaded};
use crate::objects::ClassView;
use crate::env::{Env, OBJECT_CLASS, THROWABLE_CLASS};
use crate::errors::Error;

verus! {

/// Name of the class of checked exceptions.
pub const EXCEPTION_CLASS: &'static str = "java/lang/Exception";

/// Name of the class of unchecked exceptions.
pub const RUNTIME_EXCEPTION_CLASS: &'static str = "java/lang/RuntimeException";

/// Whether the classes that the bridge works with are loaded in `env`.
pub open spec fn initialized<F, P>(env: env::EnvView<F, P>) -> bool {
    &&& env.class_named(OBJECT_CLASS@) is Some
    &&& env.class_named(THROWABLE_CLASS@) is Some
    &&& env.class_named(EXCEPTION_CLASS@) is Some
    &&& env.class_named(RUNTIME_EXCEPTION_CLASS@) is Some
    &&& env.class_named(task::strict::NULL_POINTER_EXCEPTION_CLASS@) is Some
    &&& env.class_named(juuid::UUID_CLASS@) is Some
    &&& env.class_named(exceptions::PANIC_EXCEPTION_CLASS@) is Some
    &&& env.class_named(ops::LOCAL_THREAD_EXCEPTION_CLASS@) is Some
    &&& env.class_named(sources::FUTURE_EXCEPTION_CLASS@) is Some
    &&& env.class_named(ops::FN_ADAPTER_CLASS@) is Some
    &&& env.class_named(task::WAKER_CLASS@) is Some
    &&& env.class_named(task::POLL_RESULT_CLASS@) is Some
    &&& env.class_named(future::FUTURE_CLASS@) is Some
    &&& env.class_named(sources::SIMPLE_FUTURE_CLASS@) is Some
    &&& env.class_named(stream::STREAM_CLASS@) is Some
    &&& env.class_named(sources::QUEUE_STREAM_CLASS@) is Some
    &&& env.class_named(sources::STREAM_POLL_CLASS@) is Some
}

/// The class table with the classes that the bridge works with loaded.
pub open spec fn with_bridge_classes(classes: Seq<ClassView>) -> Seq<ClassView> {
    let c = loaded(classes, EXCEPTION_CLASS@, Some(THROWABLE_CLASS@));
    let c = loaded(c, RUNTIME_EXCEPTION_CLASS@, Some(EXCEPTION_CLASS@));
    let c = loaded(
        c,
        task::strict::NULL_POINTER_EXCEPTION_CLASS@,
        Some(RUNTIME_EXCEPTION_CLASS@),
    );
    let c = loaded(c, juuid::UUID_CLASS@, Some(OBJECT_CLASS@));
    let c = loaded(c, exceptions::PANIC_EXCEPTION_CLASS@, Some(RUNTIME_EXCEPTION_CLASS@));
    let c = loaded(c, ops::LOCAL_THREAD_EXCEPTION_CLASS@, Some(RUNTIME_EXCEPTION_CLASS@));
    let c = loaded(c, sources::FUTURE_EXCEPTION_CLASS@, Some(RUNTIME_EXCEPTION_CLASS@));
    let c = loaded(c, ops::FN_ADAPTER_CLASS@, Some(OBJECT_CLASS@));
    let c = loaded(c, task::WAKER_CLASS@, Some(OBJECT_CLASS@));
    let c = loaded(c, task::POLL_RESULT_CLASS@, Some(OBJECT_CLASS@));
    let c = loaded(c, future::FUTURE_CLASS@, Some(OBJECT_CLASS@));
    let c = loaded(c, sources::SIMPLE_FUTURE_CLASS@, Some(future::FUTURE_CLASS@));
    let c = loaded(c, stream::STREAM_CLASS@, Some(OBJECT_CLASS@));
    let c = loaded(c, sources::QUEUE_STREAM_CLASS@, Some(stream::STREAM_CLASS@));
    loaded(c, sources::STREAM_POLL_CLASS@, Some(OBJECT_CLASS@))
}

/// Loads the class `name` under the superclass `parent`, keeping what is
/// loaded already.
fn load<F, P>(env: &mut Env<F, P>, name: &str, parent: &str) -> (r: Result<(), Error>)
    requires
        old(env)@.pending is None,
    ensures
        final(env)@ == (env::EnvView {
            classes: loaded(old(env)@.classes, name@, Some(parent@)),
            ..old(env)@
        }),
        forall|other: Seq<char>| #[trigger]
            old(env)@.class_named(other) is Some ==> final(env)@.class_named(other) == old(env)@.class_named(other),
        old(env)@.class_named(parent@) is Some || old(env)@.class_named(name@) is Some ==> r is Ok,
        r is Ok ==> final(env)@.class_named(name@) is Some,
        r matches Err(e) ==> e == Error::ClassNotFound,
{
    let r = env.define_class(name, Some(parent));
    proof {
        lemma_loaded(old(env)@.classes, name@, Some(parent@));
    }
    r
}

/// Prepares the managed side for the bridge: loads the classes that the
/// bridge works with, each under its superclass, keeping the definition of
/// every class that is loaded already. Rejected while an exception is
/// pending; fails with `ClassNotFound`, having loaded nothing, if the root
/// class or the root exception class is missing.
pub fn init<F, P>(env: &mut Env<F, P>) -> (r: Result<(), Error>)
    ensures
        old(env)@.pending is Some ==> r == Err::<(), Error>(Error::JavaException) && *final(env)
            == *old(env),
        old(env)@.pending is None && !(old(env)@.class_named(OBJECT_CLASS@) is Some && old(env)@.class_named(THROWABLE_CLASS@) is Some) ==> r == Err::<(), Error>(Error::ClassNotFound)
            && *final(env) == *old(env),
        old(env)@.pending is None && old(env)@.class_named(OBJECT_CLASS@) is Some && old(env)@.class_named(THROWABLE_CLASS@) is Some ==> {
            &&& r == Ok::<(), Error>(())
            &&& final(env)@ == (env::EnvView {
                classes: with_bridge_classes(old(env)@.classes),
                ..old(env)@
            })
            &&& initialized(final(env)@)
        },
{
    if env.exception_check() {
        return Err(Error::JavaException);
    }
    if env.find_class(OBJECT_CLASS).is_err() || env.find_class(THROWABLE_CLASS).is_err() {
        return Err(Error::ClassNotFound);
    }
    load(env, EXCEPTION_CLASS, THROWABLE_CLASS)?;
    load(env, RUNTIME_EXCEPTION_CLASS, EXCEPTION_CLASS)?;
    load(env, task::strict::NULL_POINTER_EXCEPTION_CLASS, RUNTIME_EXCEPTION_CLASS)?;
    load(env, juuid::UUID_CLASS, OBJECT_CLASS)?;
    load(env, exceptions::PANIC_EXCEPTION_CLASS, RUNTIME_EXCEPTION_CLASS)?;
    load(env, ops::LOCAL_THREAD_EXCEPTION_CLASS, RUNTIME_EXCEPTION_CLASS)?;
    load(env, sources::FUTURE_EXCEPTION_CLASS, RUNTIME_EXCEPTION_CLASS)?;
    load(env, ops::FN_ADAPTER_CLASS, OBJECT_CLASS)?;
    load(env, task::WAKER_CLASS, OBJECT_CLASS)?;
    load(env, task::POLL_RESULT_CLASS, OBJECT_CLASS)?;
    load(env, future::FUTURE_CLASS, OBJECT_CLASS)?;
    load(env, sources::SIMPLE_FUTURE_CLASS, future::FUTURE_CLASS)?;
    load(env, stream::STREAM_CLASS, OBJECT_CLASS)?;
    load(env, sources::QUEUE_STREAM_CLASS, stream::STREAM_CLASS)?;
    load(env, sources::STREAM_POLL_CLASS, OBJECT_CLASS)?;
    Ok(())
}

} // verus!
