use parity_scale_codec::{Decode, Encode};
use wapo::output::{shown_output, shown_value, JsValue, Output};

fn shown_js(bytes: Vec<u8>) -> Option<JsValue> {
    match shown_output(bytes, true) {
        Ok(Output::Js(value)) => Some(value),
        Ok(Output::Raw(_)) => panic!("the bytes were not decoded"),
        Err(_) => None,
    }
}

#[test]
fn raw_output_is_kept() {
    match shown_output(vec![1, 2, 3], false) {
        Ok(Output::Raw(bytes)) => assert_eq!(bytes, vec![1, 2, 3]),
        _ => panic!("the bytes are lost"),
    }
}

#[test]
fn values_are_decoded() {
    let text = "héllo".to_string();
    assert_eq!(shown_js(pink_types::js::JsValue::Undefined.encode()), Some(JsValue::Undefined));
    assert_eq!(shown_js(pink_types::js::JsValue::Null.encode()), Some(JsValue::Null));
    assert_eq!(
        shown_js(pink_types::js::JsValue::String(text.clone()).encode()),
        Some(JsValue::String(text.clone()))
    );
    assert_eq!(
        shown_js(pink_types::js::JsValue::Bytes(vec![9, 8]).encode()),
        Some(JsValue::Bytes(vec![9, 8]))
    );
    assert_eq!(
        shown_js(pink_types::js::JsValue::Other(text.clone()).encode()),
        Some(JsValue::Other(text.clone()))
    );
    assert_eq!(
        shown_js(pink_types::js::JsValue::Exception(text.clone()).encode()),
        Some(JsValue::Exception(text))
    );
}

#[test]
fn empty_output_is_no_value() {
    match shown_output(vec![], true) {
        Err(failure) => assert_eq!(failure.context(), "failed to decode JsValue"),
        Ok(_) => panic!("nothing was decoded"),
    }
}

#[test]
fn broken_output_is_no_value() {
    assert_eq!(shown_js(vec![6]), None);
    assert_eq!(shown_js(vec![2, 8, 65]), None);
    assert_eq!(shown_js(vec![2, 4, 255]), None);
}

#[test]
fn cause_is_that_of_the_bytes() {
    for bytes in [vec![], vec![6], vec![2, 8, 65]] {
        let mut input: &[u8] = &bytes;
        let expected = pink_types::js::JsValue::decode(&mut input).unwrap_err();
        match shown_output(bytes.clone(), true) {
            Err(failure) => assert_eq!(failure.cause, expected),
            Ok(_) => panic!("broken bytes were decoded"),
        }
    }
}

#[test]
fn shown_like_the_runtime_shows_it() {
    let value = pink_types::js::JsValue::String("a\"b".to_string());
    let shown = shown_js(value.encode()).unwrap();
    assert_eq!(format!("{shown:?}"), format!("{value:?}"));
}

#[test]
fn outcome_of_decoding_is_passed_on() {
    match shown_value::<u8>(Ok(JsValue::Null)) {
        Ok(Output::Js(value)) => assert_eq!(value, JsValue::Null),
        _ => panic!("the value is lost"),
    }
    match shown_value::<u8>(Err(3)) {
        Err(failure) => assert_eq!(failure.cause, 3),
        Ok(_) => panic!("the failure is lost"),
    }
}
