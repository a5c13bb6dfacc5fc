//! Tools and the normalisation of what they return.
//!
//! A tool is a callable of one of two output kinds: text, or a structured
//! JSON value. [`CustomTool`] erases the difference behind one operation,
//! `call`, which invokes the tool and turns its raw output into a
//! [`CallResult`] or a [`ToolError`].

use crate::json::{
    error_text, into_object, json_error_is_io, json_error_text, new_object, object_entries,
    object_insert, value_object, JsonEntries, JsonObject,
};
use serde_json::Value;
use vstd::prelude::*;
use vstd::std_specs::convert::FromSpecImpl;

verus! {

/// The failure of a tool: a message for the caller.
#[derive(Debug)]
pub struct ToolError {
    display: String,
}

impl View for ToolError {
    type V = Seq<char>;

    /// The message.
    closed spec fn view(&self) -> Seq<char> {
        self.display@
    }
}

impl ToolError {
    /// The message, as the caller will read it.
    pub fn to_string(&self) -> (text: String)
        ensures
            text@ == self@,
    {
        self.display.clone()
    }
}

impl From<String> for ToolError {
    fn from(value: String) -> (error: Self)
        ensures
            error@ == value@,
    {
        ToolError { display: value }
    }
}

impl FromSpecImpl<String> for ToolError {
    open spec fn obeys_from_spec() -> bool {
        true
    }

    closed spec fn from_spec(value: String) -> Self {
        ToolError { display: value }
    }
}

impl From<&str> for ToolError {
    fn from(value: &str) -> (error: Self)
        ensures
            error@ == value@,
    {
        ToolError { display: value.to_owned() }
    }
}

/// A specification cannot make a `String` of a text, so this conversion has
/// no mathematical form: the contract of `from` above says what it returns.
impl FromSpecImpl<&str> for ToolError {
    open spec fn obeys_from_spec() -> bool {
        false
    }

    closed spec fn from_spec(value: &str) -> Self {
        arbitrary()
    }
}

impl From<&String> for ToolError {
    fn from(value: &String) -> (error: Self)
        ensures
            error@ == value@,
    {
        ToolError { display: value.clone() }
    }
}

impl FromSpecImpl<&String> for ToolError {
    open spec fn obeys_from_spec() -> bool {
        true
    }

    closed spec fn from_spec(value: &String) -> Self {
        ToolError { display: *value }
    }
}

/// The conversion of a value into its own type, which the standard library
/// documents to return its argument unchanged.
pub assume_specification<Kept>[ <Kept as From<Kept>>::from ](value: Kept) -> (same: Kept)
    ensures
        same == value,
;

/// What a text tool may return: anything that settles into a text or a
/// failure.
pub trait IntoTextToolResult: Sized {
    fn result(self) -> Result<String, ToolError>;
}

impl IntoTextToolResult for String {
    fn result(self) -> (outcome: Result<String, ToolError>)
        ensures
            outcome == Ok::<String, ToolError>(self),
    {
        Ok(self)
    }
}

impl IntoTextToolResult for &String {
    fn result(self) -> (outcome: Result<String, ToolError>)
        ensures
            outcome == Ok::<String, ToolError>(*self),
    {
        Ok(self.clone())
    }
}

impl IntoTextToolResult for &str {
    fn result(self) -> (outcome: Result<String, ToolError>)
        ensures
            outcome matches Ok(text) && text@ == self@,
    {
        Ok(self.to_owned())
    }
}

impl<T, E> IntoTextToolResult for Result<T, E> where T: Into<String>, E: Into<ToolError> {
    fn result(self) -> (outcome: Result<String, ToolError>)
        ensures
            match self {
                Ok(value) => outcome matches Ok(text) && call_ensures(
                    <T as Into<String>>::into,
                    (value,),
                    text,
                ),
                Err(failure) => outcome matches Err(error) && call_ensures(
                    <E as Into<ToolError>>::into,
                    (failure,),
                    error,
                ),
            },
    {
        match self {
            Ok(value) => Ok(value.into()),
            Err(failure) => Err(failure.into()),
        }
    }
}

/// A tool that answers with text.
pub trait TextTool {
    type Output: IntoTextToolResult;

    fn call(&self) -> Self::Output;
}

/// What a structured tool may return: anything that settles into a JSON
/// value or a failure.
pub trait IntoStructuredToolResult: Sized {
    fn result(self) -> Result<Value, ToolError>;
}

impl IntoStructuredToolResult for Value {
    fn result(self) -> (outcome: Result<Value, ToolError>)
        ensures
            outcome == Ok::<Value, ToolError>(self),
    {
        Ok(self)
    }
}

impl<E> IntoStructuredToolResult for Result<Value, E> where E: Into<ToolError> {
    fn result(self) -> (outcome: Result<Value, ToolError>)
        ensures
            match self {
                Ok(value) => outcome == Ok::<Value, ToolError>(value),
                Err(failure) => outcome matches Err(error) && call_ensures(
                    <E as Into<ToolError>>::into,
                    (failure,),
                    error,
                ),
            },
    {
        match self {
            Ok(value) => Ok(value),
            Err(failure) => Err(failure.into()),
        }
    }
}

/// A value that could not be serialised fails the call with the
/// serialiser's description of what went wrong.
impl From<serde_json::Error> for ToolError {
    fn from(value: serde_json::Error) -> (error: Self)
        ensures
            !json_error_is_io(value) ==> error@ == json_error_text(value),
    {
        ToolError { display: error_text(&value) }
    }
}

/// A specification cannot make a `String` of a text, so this conversion has
/// no mathematical form: the contract of `from` above says what it returns.
impl FromSpecImpl<serde_json::Error> for ToolError {
    open spec fn obeys_from_spec() -> bool {
        false
    }

    closed spec fn from_spec(value: serde_json::Error) -> Self {
        arbitrary()
    }
}

/// A tool that answers with a structured value.
pub trait StructuredTool {
    type Output: IntoStructuredToolResult;

    fn call(&self) -> Self::Output;
}

/// The normalised result of a successful call: a text, or a JSON object.
#[derive(Debug)]
pub enum CallResult {
    Text { text: String },
    Structured { payload: JsonObject },
}

/// The key under which a structured output that is not a JSON object is
/// wrapped.
pub const RESULT_KEY: &'static str = "result";

/// The entries of the payload that stands for a structured output: those of
/// the output itself where it is a JSON object, else the output alone under
/// [`RESULT_KEY`].
pub open spec fn payload_entries(value: Value) -> JsonEntries {
    match value_object(value) {
        Some(object) => object_entries(object),
        None => JsonEntries::empty().insert(RESULT_KEY@, value),
    }
}

/// `result` is what a call answers when its text tool settled into
/// `outcome`: the text as it is, or the failure as it is.
pub open spec fn is_text_content(
    outcome: Result<String, ToolError>,
    result: Result<CallResult, ToolError>,
) -> bool {
    match outcome {
        Ok(text) => result == Ok::<CallResult, ToolError>(CallResult::Text { text }),
        Err(error) => result == Err::<CallResult, ToolError>(error),
    }
}

/// `result` is what a call answers when its structured tool settled into
/// `outcome`: a payload with the entries of [`payload_entries`] (the output
/// itself, where it is an object), or the failure as it is.
pub open spec fn is_structured_content(
    outcome: Result<Value, ToolError>,
    result: Result<CallResult, ToolError>,
) -> bool {
    match outcome {
        Ok(value) => {
            &&& result matches Ok(CallResult::Structured { payload })
            &&& object_entries(payload) == payload_entries(value)
            &&& value_object(value) matches Some(object) ==> payload == object
        },
        Err(error) => result == Err::<CallResult, ToolError>(error),
    }
}

/// The JSON object that stands for a structured output: the output itself if
/// it is an object, so that its fields are not nested, else an object that
/// holds the output under [`RESULT_KEY`].
pub fn into_payload(value: Value) -> (payload: JsonObject)
    ensures
        object_entries(payload) == payload_entries(value),
        value_object(value) matches Some(object) ==> payload == object,
{
    match into_object(value) {
        Ok(object) => object,
        Err(other) => {
            let mut wrapped = new_object();
            object_insert(&mut wrapped, RESULT_KEY.to_owned(), other);
            wrapped
        },
    }
}

/// Normalises what a text tool settled into.
pub fn text_content(outcome: Result<String, ToolError>) -> (result: Result<CallResult, ToolError>)
    ensures
        is_text_content(outcome, result),
{
    match outcome {
        Ok(text) => Ok(CallResult::Text { text }),
        Err(error) => Err(error),
    }
}

/// Normalises what a structured tool settled into.
pub fn structured_content(outcome: Result<Value, ToolError>) -> (result: Result<
    CallResult,
    ToolError,
>)
    ensures
        is_structured_content(outcome, result),
{
    match outcome {
        Ok(value) => Ok(CallResult::Structured { payload: into_payload(value) }),
        Err(error) => Err(error),
    }
}

/// What a call of the text tool `tool` may answer: the normalised form of
/// something that the tool may return.
pub open spec fn text_tool_answers<T: TextTool>(
    tool: &T,
    result: Result<CallResult, ToolError>,
) -> bool {
    exists|output: T::Output, outcome: Result<String, ToolError>|
        {
            &&& call_ensures(<T as TextTool>::call, (tool,), output)
            &&& #[trigger] call_ensures(
                <T::Output as IntoTextToolResult>::result,
                (output,),
                outcome,
            )
            &&& is_text_content(outcome, result)
        }
}

/// What a call of the structured tool `tool` may answer: the normalised form
/// of something that the tool may return.
pub open spec fn structured_tool_answers<T: StructuredTool>(
    tool: &T,
    result: Result<CallResult, ToolError>,
) -> bool {
    exists|output: T::Output, outcome: Result<Value, ToolError>|
        {
            &&& call_ensures(<T as StructuredTool>::call, (tool,), output)
            &&& #[trigger] call_ensures(
                <T::Output as IntoStructuredToolResult>::result,
                (output,),
                outcome,
            )
            &&& is_structured_content(outcome, result)
        }
}

/// A text tool behind an interface that no longer names its output type.
trait CustomTextTool: Send + Sync {
    spec fn answers(&self, result: Result<CallResult, ToolError>) -> bool;

    fn call(&self) -> (result: Result<CallResult, ToolError>)
        ensures
            self.answers(result),
    ;
}

/// A structured tool behind an interface that no longer names its output
/// type.
trait CustomStructuredTool: Send + Sync {
    spec fn answers(&self, result: Result<CallResult, ToolError>) -> bool;

    fn call(&self) -> (result: Result<CallResult, ToolError>)
        ensures
            self.answers(result),
    ;
}

impl<T> CustomTextTool for T where T: TextTool + Send + Sync {
    spec fn answers(&self, result: Result<CallResult, ToolError>) -> bool {
        text_tool_answers(self, result)
    }

    fn call(&self) -> (result: Result<CallResult, ToolError>) {
        let output = TextTool::call(self);
        let outcome = output.result();
        text_content(outcome)
    }
}

impl<T> CustomStructuredTool for T where T: StructuredTool + Send + Sync {
    spec fn answers(&self, result: Result<CallResult, ToolError>) -> bool {
        structured_tool_answers(self, result)
    }

    fn call(&self) -> (result: Result<CallResult, ToolError>) {
        let output = StructuredTool::call(self);
        let outcome = output.result();
        structured_content(outcome)
    }
}

enum CustomToolInner<'a> {
    Text(&'a dyn CustomTextTool),
    Structured(&'a dyn CustomStructuredTool),
}

/// One tool, ready to be called, whatever its output kind.
pub struct CustomTool<'a> {
    inner: CustomToolInner<'a>,
}

impl<'a> CustomTool<'a> {
    /// What a call may answer.
    pub closed spec fn answers(&self, result: Result<CallResult, ToolError>) -> bool {
        match self.inner {
            CustomToolInner::Text(tool) => tool.answers(result),
            CustomToolInner::Structured(tool) => tool.answers(result),
        }
    }

    /// Wraps a tool that answers with text.
    pub fn text<T>(tool: &'a T) -> (custom: Self) where T: TextTool + Send + Sync
        ensures
            forall|result: Result<CallResult, ToolError>|
                #[trigger] custom.answers(result) <==> text_tool_answers(tool, result),
    {
        CustomTool { inner: CustomToolInner::Text(tool) }
    }

    /// Wraps a tool that answers with a structured value.
    pub fn structured<T>(tool: &'a T) -> (custom: Self) where T: StructuredTool + Send + Sync
        ensures
            forall|result: Result<CallResult, ToolError>|
                #[trigger] custom.answers(result) <==> structured_tool_answers(tool, result),
    {
        CustomTool { inner: CustomToolInner::Structured(tool) }
    }

    /// Invokes the tool and normalises what it returned.
    pub fn call(&self) -> (result: Result<CallResult, ToolError>)
        ensures
            self.answers(result),
    {
        match self.inner {
            CustomToolInner::Text(tool) => tool.call(),
            CustomToolInner::Structured(tool) => tool.call(),
        }
    }
}

} // verus!
