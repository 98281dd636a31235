use jni_utils::env::Env;
use jni_utils::errors::Error;
use jni_utils::exceptions::{
    derive_message, raise_panic, throw_unwind, try_block, JPanicException, Payload,
    TryCatchResult,
};
use jni_utils::objects::{JObject, JThrowable};
use jni_utils::ops::NoFn;
use std::any::Any;

type Unwind = Payload<Box<dyn Any + Send>>;
type TestEnv = Env<NoFn, Unwind>;

/// Captures an unwind payload the way the edge of the native side does: text
/// payloads get their text as the message.
fn capture(any: Box<dyn Any + Send>) -> Unwind {
    let message =
        derive_message(any.downcast_ref::<&str>().copied(), any.downcast_ref::<String>());
    Payload { message, value: any }
}

fn jvm() -> TestEnv {
    let mut env: TestEnv = Env::new();
    jni_utils::init(&mut env).unwrap();
    for (name, parent) in [
        ("java/lang/IllegalArgumentException", "java/lang/RuntimeException"),
        ("java/lang/IndexOutOfBoundsException", "java/lang/RuntimeException"),
        ("java/lang/ArrayIndexOutOfBoundsException", "java/lang/IndexOutOfBoundsException"),
        ("java/lang/StringIndexOutOfBoundsException", "java/lang/IndexOutOfBoundsException"),
        ("java/lang/SecurityException", "java/lang/RuntimeException"),
    ] {
        env.define_class(name, Some(parent)).unwrap();
    }
    env
}

fn test_catch(
    env: &mut TestEnv,
    throw_class: Option<&str>,
    try_result: Result<i32, Error>,
    rethrow: bool,
) -> Result<i32, Error> {
    let old_ex = if env.exception_check() {
        let ex = env.exception_occurred();
        env.exception_clear();
        Some(ex)
    } else {
        None
    };
    env.find_class("java/lang/IllegalArgumentException").unwrap();
    if let Some(ex) = old_ex {
        env.throw(ex).unwrap();
    }

    let ex = throw_class.map(|c| JThrowable::from_object(env.new_object(c).unwrap()));

    try_block(env, |e| {
        if let Some(t) = ex {
            e.throw(t).unwrap();
        }
        try_result
    })
    .catch(env, "java/lang/IllegalArgumentException", |e, caught| {
        assert!(!e.exception_check());
        assert!(e.is_same_object(ex.unwrap().into_object(), caught.into_object()));
        Ok(1)
    })
    .catch(env, "java/lang/ArrayIndexOutOfBoundsException", |e, caught| {
        assert!(!e.exception_check());
        assert!(e.is_same_object(ex.unwrap().into_object(), caught.into_object()));
        if rethrow {
            Err(Error::JavaException)
        } else {
            Ok(2)
        }
    })
    .catch(env, "java/lang/IndexOutOfBoundsException", |e, caught| {
        assert!(!e.exception_check());
        assert!(e.is_same_object(ex.unwrap().into_object(), caught.into_object()));
        if rethrow {
            e.throw(caught).unwrap();
            Err(Error::JavaException)
        } else {
            Ok(3)
        }
    })
    .catch(env, "java/lang/StringIndexOutOfBoundsException", |e, caught| {
        assert!(!e.exception_check());
        assert!(e.is_same_object(ex.unwrap().into_object(), caught.into_object()));
        Ok(4)
    })
    .result()
}

#[test]
fn test_catch_first() {
    let mut env = jvm();
    assert_eq!(
        test_catch(
            &mut env,
            Some("java/lang/IllegalArgumentException"),
            Err(Error::JavaException),
            false,
        )
        .unwrap(),
        1
    );
    assert!(!env.exception_check());
}

#[test]
fn test_catch_second() {
    let mut env = jvm();
    assert_eq!(
        test_catch(
            &mut env,
            Some("java/lang/ArrayIndexOutOfBoundsException"),
            Err(Error::JavaException),
            false,
        )
        .unwrap(),
        2
    );
    assert!(!env.exception_check());
}

#[test]
fn test_catch_third() {
    let mut env = jvm();
    assert_eq!(
        test_catch(
            &mut env,
            Some("java/lang/StringIndexOutOfBoundsException"),
            Err(Error::JavaException),
            false,
        )
        .unwrap(),
        3
    );
    assert!(!env.exception_check());
}

#[test]
fn test_catch_ok() {
    let mut env = jvm();
    assert_eq!(test_catch(&mut env, None, Ok(0), false).unwrap(), 0);
    assert!(!env.exception_check());
}

#[test]
fn test_catch_none() {
    let mut env = jvm();
    if let Error::JavaException = test_catch(
        &mut env,
        Some("java/lang/SecurityException"),
        Err(Error::JavaException),
        false,
    )
    .unwrap_err()
    {
        assert!(env.exception_check());
        let ex = env.exception_occurred();
        env.exception_clear();
        assert!(env.is_instance_of(ex.into_object(), "java/lang/SecurityException").unwrap());
    } else {
        panic!("No JavaException");
    }
}

#[test]
fn test_catch_other() {
    let mut env = jvm();
    if let Error::InvalidCtorReturn =
        test_catch(&mut env, None, Err(Error::InvalidCtorReturn), false).unwrap_err()
    {
        assert!(!env.exception_check());
    } else {
        panic!("InvalidCtorReturn not found");
    }
}

#[test]
fn test_catch_bogus_exception() {
    let mut env = jvm();
    if let Error::JavaException =
        test_catch(&mut env, None, Err(Error::JavaException), false).unwrap_err()
    {
        assert!(!env.exception_check());
    } else {
        panic!("JavaException not found");
    }
}

#[test]
fn test_catch_prior_exception() {
    let mut env = jvm();
    let ex = JThrowable::from_object(env.new_object("java/lang/IllegalArgumentException").unwrap());
    env.throw(ex).unwrap();

    if let Error::JavaException = test_catch(&mut env, None, Ok(0), false).unwrap_err() {
        assert!(env.exception_check());
        let actual_ex = env.exception_occurred();
        env.exception_clear();
        assert!(env.is_same_object(actual_ex.into_object(), ex.into_object()));
    } else {
        panic!("JavaException not found");
    }
}

#[test]
fn test_catch_rethrow() {
    let mut env = jvm();
    if let Error::JavaException = test_catch(
        &mut env,
        Some("java/lang/StringIndexOutOfBoundsException"),
        Err(Error::JavaException),
        true,
    )
    .unwrap_err()
    {
        assert!(env.exception_check());
        let ex = env.exception_occurred();
        env.exception_clear();
        assert!(env
            .is_instance_of(ex.into_object(), "java/lang/StringIndexOutOfBoundsException")
            .unwrap());
    } else {
        panic!("JavaException not found");
    }
}

#[test]
fn test_catch_bogus_rethrow() {
    let mut env = jvm();
    if let Error::JavaException = test_catch(
        &mut env,
        Some("java/lang/ArrayIndexOutOfBoundsException"),
        Err(Error::JavaException),
        true,
    )
    .unwrap_err()
    {
        assert!(!env.exception_check());
    } else {
        panic!("JavaException not found");
    }
}

#[test]
fn test_panic_exception_static_str() {
    let mut env = jvm();
    const STATIC_MSG: &'static str = "This is a &'static str";
    let ex = JPanicException::new(&mut env, capture(Box::new(STATIC_MSG))).unwrap();

    {
        let any = ex.get(&env).unwrap();
        assert_eq!(*any.value.downcast_ref::<&str>().unwrap(), STATIC_MSG);
    }

    let msg = env.get_message(ex.as_throwable()).unwrap();
    assert_eq!(msg.as_deref(), Some(STATIC_MSG));
}

#[test]
fn test_panic_exception_string() {
    let mut env = jvm();
    const STRING_MSG: &'static str = "This is a String";
    let ex = JPanicException::new(&mut env, capture(Box::new(STRING_MSG.to_string()))).unwrap();

    {
        let any = ex.get(&env).unwrap();
        assert_eq!(*any.value.downcast_ref::<String>().unwrap(), STRING_MSG);
    }

    let msg = env.get_message(ex.as_throwable()).unwrap();
    assert_eq!(msg.as_deref(), Some(STRING_MSG));

    let any: Box<dyn Any + Send> = ex.take(&mut env).unwrap().value;
    assert_eq!(*any.downcast::<String>().unwrap(), STRING_MSG);
}

#[test]
fn test_panic_exception_other() {
    let mut env = jvm();
    let ex = JPanicException::new(&mut env, capture(Box::new(42))).unwrap();

    {
        let any = ex.get(&env).unwrap();
        assert_eq!(*any.value.downcast_ref::<i32>().unwrap(), 42);
    }

    let msg = env.get_message(ex.as_throwable()).unwrap();
    assert!(msg.is_none());

    let any: Box<dyn Any + Send> = ex.take(&mut env).unwrap().value;
    assert_eq!(*any.downcast::<i32>().unwrap(), 42);
}

#[test]
fn test_throw_unwind_ok() {
    let mut env = jvm();
    let result = throw_unwind(&mut env, |_e| Ok::<i32, Unwind>(42)).ok().unwrap();
    assert_eq!(result, 42);
    assert!(!env.exception_check());
}

#[test]
fn test_throw_unwind_panic() {
    let mut env = jvm();
    throw_unwind(&mut env, |_e| Err::<(), Unwind>(capture(Box::new("This is a panic"))))
        .unwrap_err()
        .unwrap();
    assert!(env.exception_check());
    let ex = env.exception_occurred();
    env.exception_clear();
    assert!(env
        .is_instance_of(ex.into_object(), "io/github/gedgygedgy/rust/panic/PanicException")
        .unwrap());

    let suppressed_list = env.get_suppressed(ex).unwrap();
    assert_eq!(suppressed_list.len(), 0);

    let ex = JPanicException::from_env(&env, ex).unwrap();
    let any = ex.take(&mut env).unwrap().value;
    let str = any.downcast::<&str>().unwrap();
    assert_eq!(*str, "This is a panic");
}

#[test]
fn test_throw_unwind_panic_suppress() {
    let mut env = jvm();
    let old_ex = JThrowable::from_object(env.new_object("java/lang/Exception").unwrap());
    env.throw(old_ex).unwrap();

    throw_unwind(&mut env, |_e| Err::<(), Unwind>(capture(Box::new("This is a panic"))))
        .unwrap_err()
        .unwrap();
    assert!(env.exception_check());
    let ex = env.exception_occurred();
    env.exception_clear();
    assert!(env
        .is_instance_of(ex.into_object(), "io/github/gedgygedgy/rust/panic/PanicException")
        .unwrap());

    let suppressed_list = env.get_suppressed(ex).unwrap();
    assert_eq!(suppressed_list.len(), 1);
    let suppressed_ex = suppressed_list[0];
    assert!(env.is_same_object(old_ex.into_object(), suppressed_ex.into_object()));

    let ex = JPanicException::from_env(&env, ex).unwrap();
    let any = ex.take(&mut env).unwrap().value;
    let str = any.downcast::<&str>().unwrap();
    assert_eq!(*str, "This is a panic");
}

/// Three clauses in the order subclass, class, superclass: an instance of
/// the class in the middle passes the first clause and is caught by the
/// second; the third does not run.
#[test]
fn catch_picks_the_first_clause_that_matches() {
    let mut env = jvm();
    let thrown =
        JThrowable::from_object(env.new_object("java/lang/IndexOutOfBoundsException").unwrap());
    let result = try_block(&mut env, |e| {
        e.throw(thrown).unwrap();
        Err(Error::JavaException)
    })
    .catch(&mut env, "java/lang/ArrayIndexOutOfBoundsException", |_e, _ex| Ok('a'))
    .catch(&mut env, "java/lang/IndexOutOfBoundsException", |e, ex| {
        assert_eq!(ex, thrown);
        assert!(!e.exception_check());
        Ok('b')
    })
    .catch(&mut env, "java/lang/RuntimeException", |_e, _ex| Ok('c'))
    .result();
    assert_eq!(result, Ok('b'));
    assert!(!env.exception_check());
}

/// A clause for a superclass that stands before the clause for the class
/// itself is the first that matches.
#[test]
fn catch_by_an_earlier_superclass_clause() {
    let mut env = jvm();
    let thrown =
        JThrowable::from_object(env.new_object("java/lang/IndexOutOfBoundsException").unwrap());
    let result = try_block(&mut env, |e| {
        e.throw(thrown).unwrap();
        Err(Error::JavaException)
    })
    .catch(&mut env, "java/lang/RuntimeException", |_e, _ex| Ok('c'))
    .catch(&mut env, "java/lang/IndexOutOfBoundsException", |_e, _ex| Ok('b'))
    .result();
    assert_eq!(result, Ok('c'));
}

#[test]
fn catch_with_an_unknown_class_fails_and_keeps_the_exception() {
    let mut env = jvm();
    let thrown = JThrowable::from_object(env.new_object("java/lang/Exception").unwrap());
    let chain = try_block(&mut env, |e| {
        e.throw(thrown).unwrap();
        Err::<i32, Error>(Error::JavaException)
    })
    .catch(&mut env, "no/such/Class", |_e, _ex| Ok(1));
    assert_eq!(chain.catch_result, Some(Err(Error::ClassNotFound)));
    assert_eq!(env.exception_occurred(), thrown);
    // The failure settles the sequence: a later clause does not run.
    let chain = chain.catch(&mut env, "java/lang/Exception", |_e, _ex| Ok(2));
    assert_eq!(env.exception_occurred(), thrown);
    assert_eq!(chain.result(), Err(Error::ClassNotFound));
}

#[test]
fn handler_that_raises_supersedes_later_clauses() {
    let mut env = jvm();
    let first = JThrowable::from_object(env.new_object("java/lang/SecurityException").unwrap());
    let second =
        JThrowable::from_object(env.new_object("java/lang/IllegalArgumentException").unwrap());
    let result = try_block(&mut env, |e| {
        e.throw(first).unwrap();
        Err::<i32, Error>(Error::JavaException)
    })
    .catch(&mut env, "java/lang/SecurityException", |e, _ex| {
        e.throw(second).unwrap();
        Err(Error::JavaException)
    })
    .catch(&mut env, "java/lang/IllegalArgumentException", |_e, _ex| Ok(7))
    .result();
    assert_eq!(result, Err(Error::JavaException));
    assert_eq!(env.exception_occurred(), second);
}

#[test]
fn result_of_a_chain_by_state() {
    let chain: TryCatchResult<i32> =
        TryCatchResult { try_result: Ok(Ok(5)), catch_result: Some(Ok(6)) };
    assert_eq!(chain.result(), Ok(5));
    let chain: TryCatchResult<i32> =
        TryCatchResult { try_result: Err(Error::NullPtr), catch_result: Some(Ok(6)) };
    assert_eq!(chain.result(), Err(Error::NullPtr));
    let chain: TryCatchResult<i32> =
        TryCatchResult { try_result: Ok(Err(Error::JavaException)), catch_result: Some(Ok(6)) };
    assert_eq!(chain.result(), Ok(6));
    let chain: TryCatchResult<i32> =
        TryCatchResult { try_result: Ok(Err(Error::NullPtr)), catch_result: None };
    assert_eq!(chain.result(), Err(Error::NullPtr));
}

#[test]
fn raise_panic_without_the_class_keeps_the_pending_exception() {
    let mut env: TestEnv = Env::new();
    env.define_class("java/lang/Exception", Some("java/lang/Throwable")).unwrap();
    let old_ex = JThrowable::from_object(env.new_object("java/lang/Exception").unwrap());
    env.throw(old_ex).unwrap();
    assert_eq!(raise_panic(&mut env, capture(Box::new(1u8))), Err(Error::ClassNotFound));
    assert_eq!(env.exception_occurred(), old_ex);
    assert_eq!(env.heap.len(), 1);
    let unwound = throw_unwind(&mut env, |_e| Err::<(), Unwind>(capture(Box::new(2u8))));
    assert_eq!(unwound, Err(Err(Error::ClassNotFound)));
    assert_eq!(env.exception_occurred(), old_ex);
}

#[test]
fn throw_needs_an_exception_object() {
    let mut env = jvm();
    assert_eq!(env.throw(JThrowable::from_object(JObject::null())), Err(Error::NullPtr));
    let plain = env.new_object("java/lang/Object").unwrap();
    assert_eq!(env.throw(JThrowable::from_object(plain)), Err(Error::WrongObjectType));
    assert!(!env.exception_check());
}

#[test]
fn boundary_calls_are_refused_while_an_exception_is_pending() {
    let mut env = jvm();
    let ex = JThrowable::from_object(env.new_object("java/lang/Exception").unwrap());
    env.throw(ex).unwrap();
    assert_eq!(env.new_object("java/lang/Object"), Err(Error::JavaException));
    assert_eq!(env.find_class("java/lang/Object"), Err(Error::JavaException));
    assert_eq!(env.is_instance_of(ex.into_object(), "java/lang/Object"), Err(Error::JavaException));
    assert_eq!(env.get_message(ex), Err(Error::JavaException));
    assert_eq!(jni_utils::init(&mut env), Err(Error::JavaException));
    assert_eq!(
        JPanicException::new(&mut env, capture(Box::new(0u8))).err(),
        Some(Error::JavaException)
    );
}

#[test]
fn message_of_a_payload() {
    let owned = "owned".to_string();
    assert_eq!(derive_message(Some("slice"), None).as_deref(), Some("slice"));
    assert_eq!(derive_message(None, Some(&owned)).as_deref(), Some("owned"));
    assert_eq!(derive_message(Some("slice"), Some(&owned)).as_deref(), Some("slice"));
    assert_eq!(derive_message(None, None), None);
    assert_eq!(capture(Box::new("a")).message.as_deref(), Some("a"));
    assert_eq!(capture(Box::new("b".to_string())).message.as_deref(), Some("b"));
    assert_eq!(capture(Box::new(7u64)).message, None);
}
