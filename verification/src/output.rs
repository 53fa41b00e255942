//! The output of a run, as it is shown to the user.
use vstd::prelude::*;

verus! {

/// A value of the JavaScript runtime.
#[derive(Debug, PartialEq, Eq)]
pub enum JsValue {
    Undefined,
    Null,
    String(String),
    Bytes(Vec<u8>),
    Other(String),
    Exception(String),
}

/// What a JavaScript value says.
pub ghost enum JsValueView {
    Undefined,
    Null,
    String(Seq<char>),
    Bytes(Seq<u8>),
    Other(Seq<char>),
    Exception(Seq<char>),
}

impl View for JsValue {
    type V = JsValueView;

    open spec fn view(&self) -> JsValueView {
        match *self {
            JsValue::Undefined => JsValueView::Undefined,
            JsValue::Null => JsValueView::Null,
            JsValue::String(text) => JsValueView::String(text@),
            JsValue::Bytes(bytes) => JsValueView::Bytes(bytes@),
            JsValue::Other(text) => JsValueView::Other(text@),
            JsValue::Exception(text) => JsValueView::Exception(text@),
        }
    }
}

/// The error of the SCALE codec.
#[verifier::external_type_specification]
#[verifier::external_body]
pub struct ExCodecError(parity_scale_codec::Error);

/// What a decoding says.
pub open spec fn decoded_view(decoded: Result<JsValue, parity_scale_codec::Error>) -> Result<
    JsValueView,
    parity_scale_codec::Error,
> {
    match decoded {
        Ok(value) => Ok(value@),
        Err(error) => Err(error),
    }
}

/// The value that `pink_types::js::JsValue` decodes from the front of a sequence of bytes,
/// or the error that it fails with.
pub uninterp spec fn decoded_js(bytes: Seq<u8>) -> Result<JsValueView, parity_scale_codec::Error>;

/// Calls `Decode::decode` of `parity_scale_codec` for `pink_types::js::JsValue` on
/// `bytes` and moves the value into a `JsValue`.
///
/// Trusted: the value or the error depends on the bytes alone. The call fails on no bytes
/// at all, since it reads the variant from the first. Which other bytes encode which value
/// is not stated.
#[verifier::external_body]
fn decode_js(bytes: &[u8]) -> (value: Result<JsValue, parity_scale_codec::Error>)
    ensures
        decoded_view(value) == decoded_js(bytes@),
        bytes@.len() == 0 ==> value is Err,
{
    let mut input: &[u8] = bytes;
    match <pink_types::js::JsValue as parity_scale_codec::Decode>::decode(&mut input) {
        Ok(pink_types::js::JsValue::Undefined) => Ok(JsValue::Undefined),
        Ok(pink_types::js::JsValue::Null) => Ok(JsValue::Null),
        Ok(pink_types::js::JsValue::String(text)) => Ok(JsValue::String(text)),
        Ok(pink_types::js::JsValue::Bytes(bytes)) => Ok(JsValue::Bytes(bytes)),
        Ok(pink_types::js::JsValue::Other(text)) => Ok(JsValue::Other(text)),
        Ok(pink_types::js::JsValue::Exception(text)) => Ok(JsValue::Exception(text)),
        Err(error) => Err(error),
    }
}

/// What is shown of an output.
#[derive(Debug)]
pub enum Output {
    /// The bytes as they are.
    Raw(Vec<u8>),
    /// The JavaScript value that they encode.
    Js(JsValue),
}

/// The failure to read an output as a JavaScript value.
#[derive(Debug)]
pub struct DecodeFailure<E> {
    pub cause: E,
}

impl<E> DecodeFailure<E> {
    /// What is said of the failure beside its cause.
    pub fn context(&self) -> (message: &'static str)
        ensures
            message@ == "failed to decode JsValue"@,
    {
        "failed to decode JsValue"
    }
}

/// What is shown of an output that was decoded.
pub fn shown_value<E>(decoded: Result<JsValue, E>) -> (shown: Result<Output, DecodeFailure<E>>)
    ensures
        shown == match decoded {
            Ok(value) => Ok::<Output, DecodeFailure<E>>(Output::Js(value)),
            Err(cause) => Err(DecodeFailure { cause }),
        },
{
    match decoded {
        Ok(value) => Ok(Output::Js(value)),
        Err(cause) => Err(DecodeFailure { cause }),
    }
}

/// What is shown of an output: the value that it encodes where that is asked for, else
/// its bytes. An empty output encodes no value.
pub fn shown_output(output: Vec<u8>, decode_js_value: bool) -> (shown: Result<
    Output,
    DecodeFailure<parity_scale_codec::Error>,
>)
    ensures
        !decode_js_value ==> shown == Ok::<Output, DecodeFailure<parity_scale_codec::Error>>(
            Output::Raw(output),
        ),
        decode_js_value ==> match decoded_js(output@) {
            Ok(value) => shown matches Ok(Output::Js(v)) && v@ == value,
            Err(error) => shown == Err::<Output, DecodeFailure<parity_scale_codec::Error>>(
                DecodeFailure { cause: error },
            ),
        },
        decode_js_value && output@.len() == 0 ==> shown is Err,
{
    if decode_js_value {
        shown_value(decode_js(output.as_slice()))
    } else {
        Ok(Output::Raw(output))
    }
}

/// The view of a JavaScript value holds all that the value holds, and that of a decoding
/// its value or its error.
pub proof fn law_value_view(value: JsValue)
    ensures
        match value {
            JsValue::Undefined => value@ == JsValueView::Undefined,
            JsValue::Null => value@ == JsValueView::Null,
            JsValue::String(text) => value@ == JsValueView::String(text@),
            JsValue::Bytes(bytes) => value@ == JsValueView::Bytes(bytes@),
            JsValue::Other(text) => value@ == JsValueView::Other(text@),
            JsValue::Exception(text) => value@ == JsValueView::Exception(text@),
        },
        decoded_view(Ok(value)) == Ok::<JsValueView, parity_scale_codec::Error>(value@),
        forall|error: parity_scale_codec::Error| #[trigger]
            decoded_view(Err(error)) == Err::<JsValueView, parity_scale_codec::Error>(error),
{
}

} // verus!
