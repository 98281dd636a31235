//! Conversion between native 128-bit identifiers and managed ones, which
//! hold them as two signed 64-bit halves.
use vstd::prelude::*;
use uuid::Uuid;
use crate::env::{Env, EnvView};
use crate::errors::Error;
use crate::objects::{JObject, ObjectData, ObjectView};

verus! {

/// A native 128-bit identifier. The type is opaque here; what it holds is
/// spoken of through [`uuid_bytes`].
#[verifier::external_type_specification]
#[verifier::external_body]
pub struct ExUuid(uuid::Uuid);

/// The sixteen bytes that an identifier holds, first byte first.
pub uninterp spec fn uuid_bytes(uuid: Uuid) -> Seq<u8>;

/// The sixteen bytes of `value`, most significant byte first.
pub open spec fn be_bytes(value: u128) -> Seq<u8> {
    seq![
        ((value >> 120) & 0xff) as u8,
        ((value >> 112) & 0xff) as u8,
        ((value >> 104) & 0xff) as u8,
        ((value >> 96) & 0xff) as u8,
        ((value >> 88) & 0xff) as u8,
        ((value >> 80) & 0xff) as u8,
        ((value >> 72) & 0xff) as u8,
        ((value >> 64) & 0xff) as u8,
        ((value >> 56) & 0xff) as u8,
        ((value >> 48) & 0xff) as u8,
        ((value >> 40) & 0xff) as u8,
        ((value >> 32) & 0xff) as u8,
        ((value >> 24) & 0xff) as u8,
        ((value >> 16) & 0xff) as u8,
        ((value >> 8) & 0xff) as u8,
        (value & 0xff) as u8,
    ]
}

/// The value whose bytes, most significant byte first, are `bytes`.
pub open spec fn be_value(bytes: Seq<u8>) -> u128 {
    choose|value: u128| be_bytes(value) == bytes
}

/// `Uuid::as_u128` reads the sixteen bytes of the identifier as one number,
/// most significant byte first.
pub assume_specification[ uuid::Uuid::as_u128 ](id: &uuid::Uuid) -> (r: u128)
    ensures
        be_bytes(r) == uuid_bytes(*id),
;

/// `Uuid::from_u128` makes the identifier whose sixteen bytes are those of
/// the number, most significant byte first.
pub assume_specification[ uuid::Uuid::from_u128 ](v: u128) -> (r: uuid::Uuid)
    ensures
        uuid_bytes(r) == be_bytes(v),
;

/// Two values with the same bytes are the same value.
pub proof fn law_be_bytes_injective(a: u128, b: u128)
    requires
        be_bytes(a) == be_bytes(b),
    ensures
        a == b,
{
    let x = be_bytes(a);
    let y = be_bytes(b);
    assert(x[0] == y[0] && x[1] == y[1] && x[2] == y[2] && x[3] == y[3] && x[4] == y[4] && x[5]
        == y[5] && x[6] == y[6] && x[7] == y[7] && x[8] == y[8] && x[9] == y[9] && x[10] == y[10]
        && x[11] == y[11] && x[12] == y[12] && x[13] == y[13] && x[14] == y[14] && x[15] == y[15]);
    assert(a == b) by (bit_vector)
        requires
            ((a >> 120) & 0xff) as u8 == ((b >> 120) & 0xff) as u8,
            ((a >> 112) & 0xff) as u8 == ((b >> 112) & 0xff) as u8,
            ((a >> 104) & 0xff) as u8 == ((b >> 104) & 0xff) as u8,
            ((a >> 96) & 0xff) as u8 == ((b >> 96) & 0xff) as u8,
            ((a >> 88) & 0xff) as u8 == ((b >> 88) & 0xff) as u8,
            ((a >> 80) & 0xff) as u8 == ((b >> 80) & 0xff) as u8,
            ((a >> 72) & 0xff) as u8 == ((b >> 72) & 0xff) as u8,
            ((a >> 64) & 0xff) as u8 == ((b >> 64) & 0xff) as u8,
            ((a >> 56) & 0xff) as u8 == ((b >> 56) & 0xff) as u8,
            ((a >> 48) & 0xff) as u8 == ((b >> 48) & 0xff) as u8,
            ((a >> 40) & 0xff) as u8 == ((b >> 40) & 0xff) as u8,
            ((a >> 32) & 0xff) as u8 == ((b >> 32) & 0xff) as u8,
            ((a >> 24) & 0xff) as u8 == ((b >> 24) & 0xff) as u8,
            ((a >> 16) & 0xff) as u8 == ((b >> 16) & 0xff) as u8,
            ((a >> 8) & 0xff) as u8 == ((b >> 8) & 0xff) as u8,
            (a & 0xff) as u8 == (b & 0xff) as u8,
    ;
}

/// The value of the bytes of a value is the value.
pub proof fn law_be_value_of_bytes(value: u128)
    ensures
        be_value(be_bytes(value)) == value,
{
    law_be_bytes_injective(be_value(be_bytes(value)), value);
}

/// Name of the class of managed 128-bit identifiers.
pub const UUID_CLASS: &'static str = "java/util/UUID";

/// The most significant 64 bits of `value`, read as a signed number.
pub open spec fn most_significant_bits(value: u128) -> i64 {
    ((value >> 64) & 0xFFFF_FFFF_FFFF_FFFF) as i64
}

/// The least significant 64 bits of `value`, read as a signed number.
pub open spec fn least_significant_bits(value: u128) -> i64 {
    (value & 0xFFFF_FFFF_FFFF_FFFF) as i64
}

/// The 128-bit value whose halves, read as signed numbers, are `most` and
/// `least`.
pub open spec fn joined(most: i64, least: i64) -> u128 {
    (((most as u64) as u128) << 64) | ((least as u64) as u128)
}

/// Splitting a value into its halves and joining them gives the value back.
pub proof fn law_split_then_join(value: u128)
    ensures
        joined(most_significant_bits(value), least_significant_bits(value)) == value,
{
    assert((((((value >> 64) & 0xFFFF_FFFF_FFFF_FFFF) as i64) as u64) as u128) << 64 | ((((value
        & 0xFFFF_FFFF_FFFF_FFFF) as i64) as u64) as u128) == value) by (bit_vector);
}

/// Joining two halves and splitting the result gives the halves back.
pub proof fn law_join_then_split(most: i64, least: i64)
    ensures
        most_significant_bits(joined(most, least)) == most,
        least_significant_bits(joined(most, least)) == least,
{
    assert((((((((most as u64) as u128) << 64) | ((least as u64) as u128)) >> 64)
        & 0xFFFF_FFFF_FFFF_FFFF) as i64) == most) by (bit_vector);
    assert(((((((most as u64) as u128) << 64) | ((least as u64) as u128))
        & 0xFFFF_FFFF_FFFF_FFFF) as i64) == least) by (bit_vector);
}

/// Splits `value` into its most and least significant halves, each read as
/// a signed number.
pub fn split(value: u128) -> (r: (i64, i64))
    ensures
        r.0 == most_significant_bits(value),
        r.1 == least_significant_bits(value),
{
    let least = #[verifier::truncate] ((value & 0xFFFF_FFFF_FFFF_FFFF) as i64);
    let most = #[verifier::truncate] (((value >> 64) & 0xFFFF_FFFF_FFFF_FFFF) as i64);
    (most, least)
}

/// Joins the two halves `most` and `least` to the value that
/// [`split`] splits into them.
pub fn join(most: i64, least: i64) -> (r: u128)
    ensures
        r == joined(most, least),
{
    let most = #[verifier::truncate] (most as u64);
    let least = #[verifier::truncate] (least as u64);
    ((most as u128) << 64) | (least as u128)
}

impl<F, P> EnvView<F, P> {
    /// Whether `obj` is a managed 128-bit identifier.
    pub open spec fn is_uuid(self, obj: JObject) -> bool {
        self.valid(obj) && self.data(obj) is Uuid
    }

    /// The value of the managed 128-bit identifier `obj`.
    pub open spec fn uuid_value(self, obj: JObject) -> u128
        recommends
            self.is_uuid(obj),
    {
        joined(self.data(obj)->Uuid_0, self.data(obj)->Uuid_1)
    }
}

/// Constructs a managed 128-bit identifier from its two halves. Rejected
/// while an exception is pending; fails with `ClassNotFound` if the class of
/// identifiers is not loaded.
pub fn new_uuid_object<F, P>(env: &mut Env<F, P>, most: i64, least: i64) -> (r: Result<
    JObject,
    Error,
>)
    ensures
        match r {
            Ok(obj) => {
                &&& old(env)@.pending is None
                &&& old(env)@.class_named(UUID_CLASS@) matches Some(c)
                &&& obj.id == old(env)@.heap.len() + 1
                &&& final(env)@ == old(env)@.with_new(c, ObjectView::Uuid(most, least))
                &&& final(env)@.is_uuid(obj)
                &&& final(env)@.uuid_value(obj) == joined(most, least)
            },
            Err(e) => {
                &&& *final(env) == *old(env)
                &&& if old(env)@.pending is Some {
                    e == Error::JavaException
                } else {
                    e == Error::ClassNotFound && old(env)@.class_named(UUID_CLASS@) is None
                }
            },
        },
{
    let c = match env.find_class(UUID_CLASS) {
        Ok(c) => c,
        Err(e) => {
            return Err(e);
        },
    };
    Ok(env.allocate(c, ObjectData::Uuid(most, least)))
}

/// Wrapper for managed 128-bit identifiers, which converts between them
/// and native 128-bit values.
#[derive(Clone, Copy, Debug)]
pub struct JUuid {
    pub internal: JObject,
}

impl JUuid {
    /// Wraps the managed identifier `obj`. Rejected while an exception is
    /// pending; fails with `ClassNotFound` if the class of identifiers is
    /// not loaded.
    pub fn from_env<F, P>(env: &Env<F, P>, obj: JObject) -> (r: Result<JUuid, Error>)
        ensures
            match r {
                Ok(uuid) => env@.pending is None && env@.class_named(UUID_CLASS@) is Some
                    && uuid.internal == obj,
                Err(e) => if env@.pending is Some {
                    e == Error::JavaException
                } else {
                    e == Error::ClassNotFound && env@.class_named(UUID_CLASS@) is None
                },
            },
    {
        match env.find_class(UUID_CLASS) {
            Ok(_) => Ok(JUuid::from_env_impl(obj)),
            Err(e) => Err(e),
        }
    }

    /// Constructs a managed identifier with the value of `uuid`. Rejected
    /// while an exception is pending; fails with `ClassNotFound` if the class
    /// of identifiers is not loaded.
    pub fn new<F, P>(env: &mut Env<F, P>, uuid: Uuid) -> (r: Result<JUuid, Error>)
        ensures
            match r {
                Ok(wrapper) => {
                    &&& old(env)@.pending is None
                    &&& old(env)@.class_named(UUID_CLASS@) matches Some(c)
                    &&& wrapper.internal.id == old(env)@.heap.len() + 1
                    &&& final(env)@ == old(env)@.with_new(
                        c,
                        ObjectView::Uuid(
                            most_significant_bits(be_value(uuid_bytes(uuid))),
                            least_significant_bits(be_value(uuid_bytes(uuid))),
                        ),
                    )
                    &&& final(env)@.is_uuid(wrapper.internal)
                    &&& final(env)@.uuid_value(wrapper.internal) == be_value(uuid_bytes(uuid))
                    &&& be_bytes(final(env)@.uuid_value(wrapper.internal)) == uuid_bytes(uuid)
                },
                Err(e) => {
                    &&& *final(env) == *old(env)
                    &&& if old(env)@.pending is Some {
                        e == Error::JavaException
                    } else {
                        e == Error::ClassNotFound && old(env)@.class_named(UUID_CLASS@) is None
                    }
                },
            },
    {
        let value = uuid.as_u128();
        let (most, least) = split(value);
        proof {
            law_split_then_join(value);
            law_be_value_of_bytes(value);
        }
        match new_uuid_object(env, most, least) {
            Ok(obj) => Ok(JUuid::from_env_impl(obj)),
            Err(e) => Err(e),
        }
    }

    /// The value of the identifier. Rejected while an exception is pending;
    /// fails with `NullPtr` if the wrapped handle names no object and with
    /// `WrongObjectType` if the object is no identifier.
    pub fn as_uuid<F, P>(&self, env: &Env<F, P>) -> (r: Result<Uuid, Error>)
        ensures
            match env@.refusal(self.internal, env@.is_uuid(self.internal)) {
                Some(e) => r matches Err(f) && f == e,
                None => r matches Ok(uuid) && uuid_bytes(uuid) == be_bytes(
                    env@.uuid_value(self.internal),
                ),
            },
    {
        let least = match self.least_significant_bits(env) {
            Ok(least) => least,
            Err(e) => {
                return Err(e);
            },
        };
        let most = match self.most_significant_bits(env) {
            Ok(most) => most,
            Err(e) => {
                return Err(e);
            },
        };
        Ok(Uuid::from_u128(join(most, least)))
    }

    /// The most significant half of the identifier, as the managed side
    /// reports it.
    pub fn most_significant_bits<F, P>(&self, env: &Env<F, P>) -> (r: Result<i64, Error>)
        ensures
            match env@.refusal(self.internal, env@.is_uuid(self.internal)) {
                Some(e) => r == Err::<i64, Error>(e),
                None => r == Ok::<i64, Error>(env@.data(self.internal)->Uuid_0),
            },
    {
        if env.exception_check() {
            return Err(Error::JavaException);
        }
        match env.index_of(self.internal) {
            Some(i) => match &env.heap[i].data {
                ObjectData::Uuid(most, _) => Ok(*most),
                _ => Err(Error::WrongObjectType),
            },
            None => Err(Error::NullPtr),
        }
    }

    /// The least significant half of the identifier, as the managed side
    /// reports it.
    pub fn least_significant_bits<F, P>(&self, env: &Env<F, P>) -> (r: Result<i64, Error>)
        ensures
            match env@.refusal(self.internal, env@.is_uuid(self.internal)) {
                Some(e) => r == Err::<i64, Error>(e),
                None => r == Ok::<i64, Error>(env@.data(self.internal)->Uuid_1),
            },
    {
        if env.exception_check() {
            return Err(Error::JavaException);
        }
        match env.index_of(self.internal) {
            Some(i) => match &env.heap[i].data {
                ObjectData::Uuid(_, least) => Ok(*least),
                _ => Err(Error::WrongObjectType),
            },
            None => Err(Error::NullPtr),
        }
    }

    fn from_env_impl(obj: JObject) -> (r: JUuid)
        ensures
            r.internal == obj,
    {
        JUuid { internal: obj }
    }

    /// The wrapped object.
    pub fn as_obj(&self) -> (r: JObject)
        ensures
            r == self.internal,
    {
        self.internal
    }
}

} // verus!
