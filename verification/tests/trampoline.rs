use func_bridge::error::{trap_message, HostError, HostException, ParamsError, ResultError};
use func_bridge::store::StoreData;
use func_bridge::trampoline::{accept_result, marshal_args, run_callback, settle};
use func_bridge::value::{ConvertError, HostValue, Val, ValKind};
use std::sync::atomic::{AtomicUsize, Ordering};

#[test]
fn marshal_makes_one_sequence() {
    let arg = marshal_args(&vec![Val::I32(1), Val::I64(2)]).unwrap();
    match arg {
        HostValue::Array(items) => {
            assert_eq!(items.len(), 2);
            assert!(matches!(items[0], HostValue::Integer(1)));
            assert!(matches!(items[1], HostValue::Integer(2)));
        }
        _ => panic!("expected a sequence"),
    }
    assert!(matches!(marshal_args(&vec![]), Ok(HostValue::Array(items)) if items.is_empty()));
}

#[test]
fn marshal_names_the_failing_index() {
    let e = marshal_args(&vec![Val::I32(1), Val::I32(2), Val::V128(3)]).unwrap_err();
    assert_eq!(
        e,
        ParamsError::Conversion { index: 2, reason: ConvertError::Unsupported(ValKind::V128) }
    );
}

#[test]
fn zero_results_ignore_the_return_value() {
    let none: Vec<ValKind> = vec![];
    assert!(accept_result(&HostValue::Integer(5), &none).unwrap().is_empty());
    assert!(accept_result(&HostValue::Nil, &none).unwrap().is_empty());
    let many = HostValue::Array(vec![HostValue::Nil, HostValue::Nil]);
    assert!(accept_result(&many, &none).unwrap().is_empty());
}

#[test]
fn one_result_accepts_bare_value_and_sequence() {
    let kinds = vec![ValKind::I32];
    let vals = accept_result(&HostValue::Integer(5), &kinds).unwrap();
    assert!(matches!(vals[..], [Val::I32(5)]));
    let vals = accept_result(&HostValue::Array(vec![HostValue::Integer(6)]), &kinds).unwrap();
    assert!(matches!(vals[..], [Val::I32(6)]));
}

#[test]
fn two_results_from_a_bare_value() {
    let kinds = vec![ValKind::I32, ValKind::I32];
    let e = accept_result(&HostValue::Integer(5), &kinds).unwrap_err();
    assert_eq!(e, ResultError::Count { expected: 2, given: 1 });
}

#[test]
fn nil_counts_as_one_value() {
    let kinds = vec![ValKind::ExternRef];
    let vals = accept_result(&HostValue::Nil, &kinds).unwrap();
    assert!(matches!(vals[..], [Val::ExternRef(None)]));
    let kinds = vec![ValKind::ExternRef, ValKind::ExternRef];
    let e = accept_result(&HostValue::Nil, &kinds).unwrap_err();
    assert_eq!(e, ResultError::Count { expected: 2, given: 1 });
}

#[test]
fn sequence_of_the_wrong_length() {
    let kinds = vec![ValKind::I32];
    let e = accept_result(&HostValue::Array(vec![]), &kinds).unwrap_err();
    assert_eq!(e, ResultError::Count { expected: 1, given: 0 });
    let three = HostValue::Array(vec![HostValue::Nil, HostValue::Nil, HostValue::Nil]);
    let e = accept_result(&three, &vec![ValKind::I32, ValKind::I32]).unwrap_err();
    assert_eq!(e, ResultError::Count { expected: 2, given: 3 });
}

#[test]
fn results_convert_in_order() {
    let kinds = vec![ValKind::I64, ValKind::F32];
    let returned = HostValue::Array(vec![HostValue::Integer(-1), HostValue::Single(7)]);
    let vals = accept_result(&returned, &kinds).unwrap();
    assert!(matches!(vals[..], [Val::I64(-1), Val::F32(7)]));
}

#[test]
fn result_failure_names_the_index() {
    let kinds = vec![ValKind::I64, ValKind::F32, ValKind::I32];
    let returned =
        HostValue::Array(vec![HostValue::Integer(-1), HostValue::Nil, HostValue::Nil]);
    let e = accept_result(&returned, &kinds).unwrap_err();
    assert_eq!(
        e,
        ResultError::Conversion { index: 1, reason: ConvertError::Mismatch(ValKind::F32) }
    );
    let e = accept_result(&HostValue::Nil, &vec![ValKind::I32]).unwrap_err();
    assert_eq!(
        e,
        ResultError::Conversion { index: 0, reason: ConvertError::Mismatch(ValKind::I32) }
    );
}

#[test]
fn trap_message_names_the_callback() {
    assert_eq!(
        trap_message("#<Proc:0x01>", "boom"),
        "Error when calling Func #<Proc:0x01>\n Error: boom"
    );
}

#[test]
fn settle_holds_a_raised_exception() {
    let mut data = StoreData::new();
    let raised = HostError::Exception(HostException { id: 7, message: "oops".to_string() });
    let r = settle("cb", &vec![ValKind::I32], &mut data, Err(raised));
    assert_eq!(r.unwrap_err(), "Error when calling Func cb\n Error: oops");
    let held = data.take_exception().unwrap();
    assert_eq!(held.id, 7);
    assert_eq!(held.message, "oops");
    assert!(!data.has_exception());
}

#[test]
fn settle_overwrites_a_stale_exception() {
    let mut data = StoreData::new();
    data.hold_exception(HostException { id: 1, message: "old".to_string() });
    let raised = HostError::Exception(HostException { id: 2, message: "new".to_string() });
    assert!(settle("cb", &vec![], &mut data, Err(raised)).is_err());
    assert_eq!(data.take_exception().unwrap().id, 2);
}

#[test]
fn settle_leaves_the_slot_on_other_failures() {
    let mut data = StoreData::new();
    let r = settle("cb", &vec![], &mut data, Err(HostError::Failure("bad".to_string())));
    assert_eq!(r.unwrap_err(), "Error when calling Func cb\n Error: bad");
    assert!(!data.has_exception());
    let r = settle("cb", &vec![ValKind::I32, ValKind::I32], &mut data, Ok(HostValue::Integer(1)));
    assert_eq!(
        r.unwrap_err(),
        "Error when calling Func cb\n Error: wrong number of results (given 1, expected 2)"
    );
    assert!(!data.has_exception());
    data.hold_exception(HostException { id: 3, message: "kept".to_string() });
    let r = settle("cb", &vec![ValKind::I32], &mut data, Ok(HostValue::Integer(1)));
    assert!(matches!(r.unwrap()[..], [Val::I32(1)]));
    assert_eq!(data.take_exception().unwrap().id, 3);
}

#[test]
fn callback_is_not_run_on_a_bad_parameter() {
    let runs = AtomicUsize::new(0);
    let callback = |_args: HostValue| -> Result<HostValue, HostError> {
        runs.fetch_add(1, Ordering::SeqCst);
        Ok(HostValue::Nil)
    };
    let mut data = StoreData::new();
    let r = run_callback("cb", &vec![], &callback, &mut data, &vec![Val::I32(1), Val::V128(0)]);
    assert_eq!(
        r.unwrap_err(),
        "Error when calling Func cb\n Error: invalid argument at index 1: conversion of v128 is not supported"
    );
    assert_eq!(runs.load(Ordering::SeqCst), 0);
    assert!(!data.has_exception());
}

#[test]
fn callback_gets_one_sequence_and_runs_once() {
    let runs = AtomicUsize::new(0);
    let callback = |args: HostValue| -> Result<HostValue, HostError> {
        runs.fetch_add(1, Ordering::SeqCst);
        match args {
            HostValue::Array(items) => match items[..] {
                [HostValue::Integer(a), HostValue::Integer(b)] => Ok(HostValue::Integer(a + b)),
                _ => Err(HostError::Failure("unexpected arguments".to_string())),
            },
            _ => Err(HostError::Failure("not a sequence".to_string())),
        }
    };
    let mut data = StoreData::new();
    let r = run_callback(
        "add",
        &vec![ValKind::I64],
        &callback,
        &mut data,
        &vec![Val::I32(40), Val::I64(2)],
    );
    assert!(matches!(r.unwrap()[..], [Val::I64(42)]));
    assert_eq!(runs.load(Ordering::SeqCst), 1);
}

#[test]
fn store_data_retains_in_order() {
    let mut data = StoreData::new();
    assert!(!data.is_retained(4));
    data.retain(4);
    data.retain(9);
    assert!(data.is_retained(4));
    assert!(data.is_retained(9));
    assert!(!data.is_retained(5));
    assert!(data.take_exception().is_none());
}
