use func_bridge::error::{HostError, HostException};
use func_bridge::invoke::{conclude, invoke_failure, package_results, InvokeError};
use func_bridge::store::StoreData;
use func_bridge::value::{ConvertError, HostValue, Val, ValKind};

#[test]
fn no_result_is_nil() {
    assert!(matches!(package_results(&vec![]), Ok(HostValue::Nil)));
}

#[test]
fn one_result_is_the_value() {
    assert!(matches!(package_results(&vec![Val::I32(3)]), Ok(HostValue::Integer(3))));
    assert_eq!(
        package_results(&vec![Val::V128(3)]).unwrap_err(),
        ConvertError::Unsupported(ValKind::V128)
    );
}

#[test]
fn several_results_are_a_sequence() {
    match package_results(&vec![Val::I32(3), Val::F64(4), Val::FuncRef(None)]) {
        Ok(HostValue::Array(items)) => {
            assert_eq!(items.len(), 3);
            assert!(matches!(items[0], HostValue::Integer(3)));
            assert!(matches!(items[1], HostValue::Double(4)));
            assert!(matches!(items[2], HostValue::Nil));
        }
        _ => panic!("expected a sequence"),
    }
    assert_eq!(
        package_results(&vec![Val::I32(3), Val::V128(4)]).unwrap_err(),
        ConvertError::Unsupported(ValKind::V128)
    );
}

#[test]
fn pending_exception_is_the_cause() {
    let x = HostException { id: 11, message: "raised".to_string() };
    match invoke_failure(Some(x), "engine says no") {
        InvokeError::BoxedException(e) => {
            assert_eq!(e.id, 11);
            assert_eq!(e.message, "raised");
        }
        _ => panic!("expected the exception"),
    }
}

#[test]
fn engine_message_is_wrapped() {
    match invoke_failure(None, "out of fuel") {
        InvokeError::Error(HostError::Failure(m)) => {
            assert_eq!(m, "Could not invoke function: out of fuel")
        }
        _ => panic!("expected a failure"),
    }
}

#[test]
fn conclude_reads_the_slot_once() {
    let mut data = StoreData::new();
    data.hold_exception(HostException { id: 5, message: "e".to_string() });
    let r = conclude(&mut data, Err("trap".to_string()));
    assert!(matches!(r, Err(InvokeError::BoxedException(HostException { id: 5, .. }))));
    assert!(!data.has_exception());
    let r = conclude(&mut data, Err("trap".to_string()));
    assert!(
        matches!(r, Err(InvokeError::Error(HostError::Failure(m))) if m == "Could not invoke function: trap")
    );
}

#[test]
fn conclude_leaves_the_slot_on_success() {
    let mut data = StoreData::new();
    data.hold_exception(HostException { id: 5, message: "e".to_string() });
    assert!(matches!(conclude(&mut data, Ok(vec![Val::I64(1)])), Ok(HostValue::Integer(1))));
    assert!(data.has_exception());
    assert!(matches!(conclude(&mut data, Ok(vec![])), Ok(HostValue::Nil)));
    let r = conclude(&mut data, Ok(vec![Val::V128(0)]));
    assert!(
        matches!(r, Err(InvokeError::Error(HostError::Failure(m))) if m == "conversion of v128 is not supported")
    );
}

#[test]
fn invoke_error_becomes_the_host_error() {
    let boxed = InvokeError::BoxedException(HostException { id: 8, message: "m".to_string() });
    assert!(matches!(HostError::from(boxed), HostError::Exception(HostException { id: 8, .. })));
    let other = InvokeError::Error(HostError::Failure("f".to_string()));
    assert!(matches!(HostError::from(other), HostError::Failure(m) if m == "f"));
    let kept = InvokeError::Error(HostError::Exception(HostException {
        id: 9,
        message: "m".to_string(),
    }));
    assert!(matches!(HostError::from(kept), HostError::Exception(HostException { id: 9, .. })));
}

#[test]
fn errors_become_invoke_errors() {
    let e = InvokeError::from(HostError::Failure("f".to_string()));
    assert!(matches!(e, InvokeError::Error(HostError::Failure(m)) if m == "f"));
    let e = InvokeError::from(HostException { id: 2, message: "x".to_string() });
    assert!(matches!(e, InvokeError::BoxedException(HostException { id: 2, .. })));
}

#[test]
fn host_error_text() {
    let e = HostError::Exception(HostException { id: 2, message: "boom".to_string() });
    assert_eq!(e.text(), "boom");
    assert_eq!(HostError::Failure("plain".to_string()).text(), "plain");
}
