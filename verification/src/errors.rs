//! The errors of boundary operations.
use vstd::prelude::*;

verus! {

/// Failures reported by operations that cross the boundary to the managed side.
#[derive(Clone, Copy, Debug, PartialEq, Eq, Structural)]
pub enum Error {
    /// A managed exception is pending; it stays in the pending slot until a
    /// catch clause absorbs it or it is cleared.
    JavaException,
    /// A handle was null, dangling, or the native value it should carry is
    /// gone (for instance because it was already taken).
    NullPtr,
    /// The handle names an object of a kind the operation does not apply to.
    WrongObjectType,
    /// No class of the requested name is loaded.
    ClassNotFound,
    /// A constructor was described by a signature that does not return
    /// `void`. No operation of this crate reports it; it is for blocks and
    /// handlers that construct managed objects by signature.
    InvalidCtorReturn,
    /// The calling thread has no access to the managed runtime that the
    /// handle belongs to.
    ThreadDetached,
    /// A call-mutably closure was entered while it was already running; an
    /// implementation built on a non-reentrant lock would block forever here.
    Deadlock,
}

} // verus!
