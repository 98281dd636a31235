use jni_utils::env::Env;
use jni_utils::errors::Error;
use jni_utils::exceptions::Payload;
use jni_utils::objects::JObject;
use jni_utils::ops::NoFn;
use jni_utils::juuid::{new_uuid_object, JUuid};
use uuid::Uuid;

type Unwind = Payload<()>;
type TestEnv = Env<NoFn, Unwind>;

struct UuidTest {
    uuid: u128,
    most: u64,
    least: u64,
}

const TESTS: &[UuidTest] = &[
    UuidTest {
        uuid: 0x63f0f617_f589_40d0_98be_90747b1ea55a,
        most: 0x63f0f617_f589_40d0,
        least: 0x98be_90747b1ea55a,
    },
    UuidTest {
        uuid: 0xdea61ec0_51a6_4d97_81e0_d7b77e9c03d4,
        most: 0xdea61ec0_51a6_4d97,
        least: 0x81e0_d7b77e9c03d4,
    },
];

fn jvm() -> TestEnv {
    let mut env: TestEnv = Env::new();
    jni_utils::init(&mut env).unwrap();
    env
}

#[test]
fn test_uuid_new() {
    let mut env = jvm();

    for test in TESTS {
        let most = test.most as i64;
        let least = test.least as i64;

        let uuid_obj = JUuid::new(&mut env, Uuid::from_u128(test.uuid)).unwrap();

        let actual_most = uuid_obj.most_significant_bits(&env).unwrap();
        let actual_least = uuid_obj.least_significant_bits(&env).unwrap();
        assert_eq!(actual_most, most);
        assert_eq!(actual_least, least);
    }
}

#[test]
fn test_uuid_as_uuid() {
    let mut env = jvm();

    for test in TESTS {
        let most = test.most as i64;
        let least = test.least as i64;

        let obj = new_uuid_object(&mut env, most, least).unwrap();
        let uuid_obj = JUuid::from_env(&env, obj).unwrap();

        assert_eq!(uuid_obj.as_uuid(&env).unwrap(), Uuid::from_u128(test.uuid));
    }
}

#[test]
fn uuid_round_trip_at_the_extremes() {
    let mut env = jvm();
    for value in [0u128, 1, u128::MAX, 1 << 63, 1 << 64, 1 << 127, (1 << 64) - 1] {
        let obj = JUuid::new(&mut env, Uuid::from_u128(value)).unwrap();
        assert_eq!(obj.as_uuid(&env), Ok(Uuid::from_u128(value)));
        assert_eq!(obj.as_uuid(&env).unwrap().as_u128(), value);
    }
    let all_ones = JUuid::new(&mut env, Uuid::from_u128(u128::MAX)).unwrap();
    assert_eq!(all_ones.most_significant_bits(&env), Ok(-1));
    assert_eq!(all_ones.least_significant_bits(&env), Ok(-1));
    let high = JUuid::new(&mut env, Uuid::from_u128(1 << 127)).unwrap();
    assert_eq!(high.most_significant_bits(&env), Ok(i64::MIN));
    assert_eq!(high.least_significant_bits(&env), Ok(0));
}

#[test]
fn uuid_errors() {
    let mut env = jvm();
    let plain = env.new_object("java/lang/Object").unwrap();
    assert_eq!(
        JUuid::from_env(&env, plain).unwrap().as_uuid(&env),
        Err(Error::WrongObjectType)
    );
    assert_eq!(JUuid::from_env(&env, JObject::null()).unwrap().as_uuid(&env), Err(Error::NullPtr));
    let mut bare: TestEnv = Env::new();
    assert_eq!(JUuid::new(&mut bare, Uuid::from_u128(7)).err(), Some(Error::ClassNotFound));
    assert_eq!(JUuid::from_env(&bare, JObject::null()).err(), Some(Error::ClassNotFound));
}

/// The bytes of an identifier go to the managed side most significant byte
/// first: the first eight make the most significant half.
#[test]
fn uuid_bytes_in_order() {
    let mut env = jvm();
    let uuid = Uuid::from_bytes([
        0x01, 0x02, 0x03, 0x04, 0x05, 0x06, 0x07, 0x08, 0xf1, 0xf2, 0xf3, 0xf4, 0xf5, 0xf6, 0xf7,
        0xf8,
    ]);
    let obj = JUuid::new(&mut env, uuid).unwrap();
    assert_eq!(obj.most_significant_bits(&env), Ok(0x0102030405060708));
    assert_eq!(obj.least_significant_bits(&env), Ok(0xf1f2f3f4f5f6f7f8u64 as i64));
    assert_eq!(obj.as_uuid(&env).unwrap().as_bytes(), uuid.as_bytes());
}
