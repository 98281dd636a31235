//! Conversion between native byte slices and managed byte arrays.
use vstd::prelude::*;
use crate::env::{Env, EnvView, OBJECT_CLASS};
use crate::errors::Error;
use crate::objects::{JObject, ObjectData, ObjectView};

verus! {

/// The byte `b` as the managed side holds it: the same eight bits, read as a
/// signed number.
pub open spec fn to_managed(b: u8) -> i8 {
    b as i8
}

/// The managed byte `b` as the native side holds it: the same eight bits,
/// read as an unsigned number.
pub open spec fn to_native(b: i8) -> u8 {
    b as u8
}

/// Converting a byte to the managed side and back gives the byte.
pub proof fn law_byte_round_trip(b: u8)
    ensures
        to_native(to_managed(b)) == b,
{
    assert(((b as i8) as u8) == b) by (bit_vector);
}

/// Converting a managed byte to the native side and back gives the byte.
pub proof fn law_managed_byte_round_trip(b: i8)
    ensures
        to_managed(to_native(b)) == b,
{
    assert(((b as u8) as i8) == b) by (bit_vector);
}

/// The bytes of `slice` as the managed side holds them.
pub fn to_managed_bytes(slice: &[u8]) -> (bytes: Vec<i8>)
    ensures
        bytes@ == slice@.map_values(|b: u8| to_managed(b)),
{
    let mut bytes: Vec<i8> = Vec::new();
    let mut i: usize = 0;
    while i < slice.len()
        invariant
            i <= slice@.len(),
            bytes@ == slice@.subrange(0, i as int).map_values(|b: u8| to_managed(b)),
        decreases slice@.len() - i,
    {
        let b: i8 = #[verifier::truncate] (slice[i] as i8);
        bytes.push(b);
        i += 1;
    }
    bytes
}

/// The managed bytes of `slice` as the native side holds them.
pub fn to_native_bytes(slice: &[i8]) -> (bytes: Vec<u8>)
    ensures
        bytes@ == slice@.map_values(|b: i8| to_native(b)),
{
    let mut bytes: Vec<u8> = Vec::new();
    let mut i: usize = 0;
    while i < slice.len()
        invariant
            i <= slice@.len(),
            bytes@ == slice@.subrange(0, i as int).map_values(|b: i8| to_native(b)),
        decreases slice@.len() - i,
    {
        let b: u8 = #[verifier::truncate] (slice[i] as u8);
        bytes.push(b);
        i += 1;
    }
    bytes
}

impl<F, P> EnvView<F, P> {
    /// Whether `obj` is a managed byte array.
    pub open spec fn is_byte_array(self, obj: JObject) -> bool {
        self.valid(obj) && self.data(obj) is ByteArray
    }

    /// The bytes of the managed byte array `obj`.
    pub open spec fn bytes(self, obj: JObject) -> Seq<i8>
        recommends
            self.is_byte_array(obj),
    {
        self.data(obj)->ByteArray_0
    }
}

/// Creates a managed byte array that holds the bytes of `slice`. Rejected
/// while an exception is pending; fails with `ClassNotFound` if the root
/// class is not loaded.
pub fn slice_to_byte_array<F, P>(env: &mut Env<F, P>, slice: &[u8]) -> (r: Result<JObject, Error>)
    ensures
        match r {
            Ok(obj) => {
                &&& old(env)@.pending is None
                &&& old(env)@.class_named(OBJECT_CLASS@) matches Some(c)
                &&& obj.id == old(env)@.heap.len() + 1
                &&& final(env)@ == old(env)@.with_new(
                    c,
                    ObjectView::ByteArray(slice@.map_values(|b: u8| to_managed(b))),
                )
                &&& final(env)@.is_byte_array(obj)
                &&& final(env)@.bytes(obj) == slice@.map_values(|b: u8| to_managed(b))
            },
            Err(e) => {
                &&& *final(env) == *old(env)
                &&& if old(env)@.pending is Some {
                    e == Error::JavaException
                } else {
                    e == Error::ClassNotFound && old(env)@.class_named(OBJECT_CLASS@) is None
                }
            },
        },
{
    let c = match env.find_class(OBJECT_CLASS) {
        Ok(c) => c,
        Err(e) => {
            return Err(e);
        },
    };
    let bytes = to_managed_bytes(slice);
    Ok(env.allocate(c, ObjectData::ByteArray(bytes)))
}

/// The bytes of the managed byte array `obj`. Rejected while an exception is
/// pending; fails with `NullPtr` if `obj` names no object and with
/// `WrongObjectType` if the object is no byte array.
pub fn byte_array_to_vec<F, P>(env: &Env<F, P>, obj: JObject) -> (r: Result<Vec<u8>, Error>)
    ensures
        match env@.refusal(obj, env@.is_byte_array(obj)) {
            Some(e) => r == Err::<Vec<u8>, Error>(e),
            None => r matches Ok(bytes) && bytes@ == env@.bytes(obj).map_values(
                |b: i8| to_native(b),
            ),
        },
{
    if env.exception_check() {
        return Err(Error::JavaException);
    }
    let i = match env.index_of(obj) {
        Some(i) => i,
        None => {
            return Err(Error::NullPtr);
        },
    };
    match &env.heap[i].data {
        ObjectData::ByteArray(held) => Ok(to_native_bytes(held.as_slice())),
        _ => Err(Error::WrongObjectType),
    }
}

/// The length of the managed byte array `obj`.
pub fn get_array_length<F, P>(env: &Env<F, P>, obj: JObject) -> (r: Result<usize, Error>)
    ensures
        match env@.refusal(obj, env@.is_byte_array(obj)) {
            Some(e) => r == Err::<usize, Error>(e),
            None => r == Ok::<usize, Error>(env@.bytes(obj).len() as usize),
        },
{
    if env.exception_check() {
        return Err(Error::JavaException);
    }
    match env.index_of(obj) {
        Some(i) => match &env.heap[i].data {
            ObjectData::ByteArray(held) => Ok(held.len()),
            _ => Err(Error::WrongObjectType),
        },
        None => Err(Error::NullPtr),
    }
}

/// A copy of the managed bytes of the byte array `obj`, as the managed side
/// holds them.
pub fn get_byte_array_region<F, P>(env: &Env<F, P>, obj: JObject) -> (r: Result<Vec<i8>, Error>)
    ensures
        match env@.refusal(obj, env@.is_byte_array(obj)) {
            Some(e) => r == Err::<Vec<i8>, Error>(e),
            None => r matches Ok(bytes) && bytes@ == env@.bytes(obj),
        },
{
    if env.exception_check() {
        return Err(Error::JavaException);
    }
    match env.index_of(obj) {
        Some(i) => match &env.heap[i].data {
            ObjectData::ByteArray(held) => {
                let mut bytes: Vec<i8> = Vec::new();
                let mut k: usize = 0;
                while k < held.len()
                    invariant
                        k <= held@.len(),
                        bytes@ == held@.subrange(0, k as int),
                    decreases held@.len() - k,
                {
                    bytes.push(held[k]);
                    k += 1;
                }
                Ok(bytes)
            },
            _ => Err(Error::WrongObjectType),
        },
        None => Err(Error::NullPtr),
    }
}

/// Creates a managed byte array that holds the managed bytes `bytes`.
/// Rejected while an exception is pending; fails with `ClassNotFound` if the
/// root class is not loaded.
pub fn new_byte_array<F, P>(env: &mut Env<F, P>, bytes: Vec<i8>) -> (r: Result<JObject, Error>)
    ensures
        match r {
            Ok(obj) => {
                &&& old(env)@.pending is None
                &&& old(env)@.class_named(OBJECT_CLASS@) matches Some(c)
                &&& obj.id == old(env)@.heap.len() + 1
                &&& final(env)@ == old(env)@.with_new(c, ObjectView::ByteArray(bytes@))
                &&& final(env)@.is_byte_array(obj)
                &&& final(env)@.bytes(obj) == bytes@
            },
            Err(e) => {
                &&& *final(env) == *old(env)
                &&& if old(env)@.pending is Some {
                    e == Error::JavaException
                } else {
                    e == Error::ClassNotFound && old(env)@.class_named(OBJECT_CLASS@) is None
                }
            },
        },
{
    let c = match env.find_class(OBJECT_CLASS) {
        Ok(c) => c,
        Err(e) => {
            return Err(e);
        },
    };
    Ok(env.allocate(c, ObjectData::ByteArray(bytes)))
}

} // verus!
