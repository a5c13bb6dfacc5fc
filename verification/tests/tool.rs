use mcp_utils::json::{is_io_error, JsonObject};
use mcp_utils::tool_prelude::{
    CallResult, CustomTool, IntoStructuredToolResult, IntoTextToolResult, StructuredTool, TextTool,
    ToolError,
};
use mcp_utils::tool::{into_payload, structured_content, text_content};
use serde_json::Value;
use std::collections::HashMap;

fn object(entries: Vec<(&str, Value)>) -> JsonObject {
    let mut object = JsonObject::new();
    for (key, value) in entries {
        object.insert(key.to_string(), value);
    }
    object
}

fn payload_of(result: Result<CallResult, ToolError>) -> JsonObject {
    match result {
        Ok(CallResult::Structured { payload }) => payload,
        other => panic!("expected a structured result, got {:?}", other),
    }
}

fn text_of(result: Result<CallResult, ToolError>) -> String {
    match result {
        Ok(CallResult::Text { text }) => text,
        other => panic!("expected a text result, got {:?}", other),
    }
}

fn failure_of(result: Result<CallResult, ToolError>) -> String {
    match result {
        Err(error) => error.to_string(),
        other => panic!("expected a failure, got {:?}", other),
    }
}

struct Greeter {
    name: String,
}

impl TextTool for Greeter {
    type Output = String;

    fn call(&self) -> String {
        format!("Hello, {}!", self.name)
    }
}

struct Fixed;

impl TextTool for Fixed {
    type Output = &'static str;

    fn call(&self) -> &'static str {
        "fixed"
    }
}

struct Divider {
    dividend: i64,
    divisor: i64,
}

impl TextTool for Divider {
    type Output = Result<String, String>;

    fn call(&self) -> Result<String, String> {
        if self.divisor == 0 {
            Err("division by zero".to_string())
        } else {
            Ok((self.dividend / self.divisor).to_string())
        }
    }
}

struct Echo {
    value: Value,
}

impl StructuredTool for Echo {
    type Output = Value;

    fn call(&self) -> Value {
        self.value.clone()
    }
}

struct Checked {
    fail: bool,
}

impl StructuredTool for Checked {
    type Output = Result<Value, &'static str>;

    fn call(&self) -> Result<Value, &'static str> {
        if self.fail {
            Err("refused")
        } else {
            Ok(Value::from(true))
        }
    }
}

struct Unserializable;

impl StructuredTool for Unserializable {
    type Output = Result<Value, serde_json::Error>;

    fn call(&self) -> Result<Value, serde_json::Error> {
        let mut keyed_by_pairs: HashMap<(i32, i32), i32> = HashMap::new();
        keyed_by_pairs.insert((1, 2), 3);
        serde_json::to_value(keyed_by_pairs)
    }
}

struct SumTool {
    values: Vec<f64>,
}

struct SumResult {
    sum: Option<f64>,
    error: Option<String>,
}

impl SumResult {
    fn to_value(&self) -> Value {
        let mut fields = JsonObject::new();
        if let Some(sum) = self.sum {
            fields.insert("sum".to_string(), Value::from(sum));
        }
        if let Some(error) = &self.error {
            fields.insert("error".to_string(), Value::from(error.clone()));
        }
        Value::Object(fields)
    }
}

impl StructuredTool for SumTool {
    type Output = Value;

    fn call(&self) -> Value {
        let mut sum = 0.0_f64;
        for number in self.values.iter() {
            let new_sum = sum + number;
            if new_sum.is_finite() {
                sum = new_sum;
            } else {
                return SumResult { error: Some("Infinite value detected".to_string()), sum: None }
                    .to_value();
            }
        }
        SumResult { sum: Some(sum), error: None }.to_value()
    }
}

#[test]
fn tool_error_keeps_the_message_of_each_source() {
    assert_eq!(ToolError::from("from a slice").to_string(), "from a slice");
    assert_eq!(ToolError::from("owned".to_string()).to_string(), "owned");
    let borrowed = "borrowed".to_string();
    assert_eq!(ToolError::from(&borrowed).to_string(), "borrowed");
    assert_eq!(ToolError::from("").to_string(), "");
}

#[test]
fn tool_error_of_a_serialisation_error_carries_its_description() {
    let error = serde_json::from_str::<Value>("{").unwrap_err();
    let description = error.to_string();
    assert!(!description.is_empty());
    assert_eq!(ToolError::from(error).to_string(), description);
}

struct Broken;

impl std::io::Read for Broken {
    fn read(&mut self, _buffer: &mut [u8]) -> std::io::Result<usize> {
        Err(std::io::Error::new(std::io::ErrorKind::Other, "the stream broke"))
    }
}

#[test]
fn errors_of_input_and_output_are_told_from_the_others() {
    let syntax = serde_json::from_str::<Value>("{").unwrap_err();
    assert!(!is_io_error(&syntax));
    let data = serde_json::from_str::<u8>("300").unwrap_err();
    assert!(!is_io_error(&data));
    let io = serde_json::from_reader::<Broken, Value>(Broken).unwrap_err();
    assert!(is_io_error(&io));
}

#[test]
fn tool_error_of_an_input_error_carries_its_description_too() {
    let io = serde_json::from_reader::<Broken, Value>(Broken).unwrap_err();
    let description = io.to_string();
    assert_eq!(description, "the stream broke");
    assert_eq!(ToolError::from(io).to_string(), description);
}

#[test]
fn tool_error_of_a_data_error_names_line_and_column() {
    let error = serde_json::from_str::<u8>("300").unwrap_err();
    assert_eq!(
        ToolError::from(error).to_string(),
        "invalid value: integer `300`, expected u8 at line 1 column 3"
    );
}

#[test]
fn text_outputs_settle_into_their_text() {
    assert_eq!("plain".to_string().result().unwrap(), "plain");
    let owned = "shared".to_string();
    assert_eq!((&owned).result().unwrap(), "shared");
    assert_eq!("slice".result().unwrap(), "slice");
    let ok: Result<&str, &str> = Ok("fine");
    assert_eq!(ok.result().unwrap(), "fine");
    let failed: Result<String, &str> = Err("broken");
    assert_eq!(failed.result().unwrap_err().to_string(), "broken");
    let failed: Result<String, ToolError> = Err(ToolError::from("kept"));
    assert_eq!(failed.result().unwrap_err().to_string(), "kept");
}

#[test]
fn structured_outputs_settle_into_their_value() {
    assert_eq!(Value::from(3).result().unwrap(), Value::from(3));
    let ok: Result<Value, String> = Ok(Value::Null);
    assert_eq!(ok.result().unwrap(), Value::Null);
    let failed: Result<Value, String> = Err("no value".to_string());
    assert_eq!(failed.result().unwrap_err().to_string(), "no value");
}

#[test]
fn text_content_passes_text_and_failure_through() {
    assert_eq!(text_of(text_content(Ok("done".to_string()))), "done");
    assert_eq!(text_of(text_content(Ok(String::new()))), "");
    assert_eq!(failure_of(text_content(Err(ToolError::from("failed")))), "failed");
}

#[test]
fn object_output_is_merged_without_nesting() {
    let output = Value::Object(object(vec![("a", Value::from(1)), ("b", Value::from(2))]));
    let payload = payload_of(structured_content(Ok(output)));
    assert_eq!(payload, object(vec![("a", Value::from(1)), ("b", Value::from(2))]));
    assert_eq!(payload.len(), 2);
    assert!(!payload.contains_key("result"));
}

#[test]
fn scalar_output_is_wrapped_under_result() {
    let payload = payload_of(structured_content(Ok(Value::from(5))));
    assert_eq!(payload, object(vec![("result", Value::from(5))]));
}

#[test]
fn every_output_that_is_no_object_is_wrapped() {
    let array = Value::Array(vec![Value::from(1), Value::from("two")]);
    for output in [Value::Null, Value::from(false), Value::from("text"), Value::from(1.5), array] {
        let payload = into_payload(output.clone());
        assert_eq!(payload, object(vec![("result", output)]));
    }
}

#[test]
fn empty_object_output_gives_an_empty_payload() {
    let payload = into_payload(Value::Object(JsonObject::new()));
    assert!(payload.is_empty());
}

#[test]
fn object_with_a_result_key_is_merged_as_it_is() {
    let output = Value::Object(object(vec![("result", Value::from("inner"))]));
    assert_eq!(into_payload(output), object(vec![("result", Value::from("inner"))]));
}

#[test]
fn structured_content_passes_a_failure_through() {
    assert_eq!(failure_of(structured_content(Err(ToolError::from("no output")))), "no output");
}

#[test]
fn text_tool_is_called_and_normalised() {
    let greeter = Greeter { name: "Ada".to_string() };
    assert_eq!(text_of(CustomTool::text(&greeter).call()), "Hello, Ada!");
    assert_eq!(text_of(CustomTool::text(&Fixed).call()), "fixed");
}

#[test]
fn text_tool_failure_becomes_the_call_error() {
    let divider = Divider { dividend: 1, divisor: 0 };
    assert_eq!(failure_of(CustomTool::text(&divider).call()), "division by zero");
    let divider = Divider { dividend: 9, divisor: 2 };
    assert_eq!(text_of(CustomTool::text(&divider).call()), "4");
}

#[test]
fn structured_tool_is_called_and_normalised() {
    let echo = Echo { value: Value::Object(object(vec![("a", Value::from(1)), ("b", Value::from(2))])) };
    assert_eq!(
        payload_of(CustomTool::structured(&echo).call()),
        object(vec![("a", Value::from(1)), ("b", Value::from(2))])
    );
    let echo = Echo { value: Value::from(5) };
    assert_eq!(payload_of(CustomTool::structured(&echo).call()), object(vec![("result", Value::from(5))]));
}

#[test]
fn structured_tool_failure_becomes_the_call_error() {
    assert_eq!(failure_of(CustomTool::structured(&Checked { fail: true }).call()), "refused");
    assert_eq!(
        payload_of(CustomTool::structured(&Checked { fail: false }).call()),
        object(vec![("result", Value::from(true))])
    );
}

#[test]
fn serialisation_failure_becomes_the_call_error() {
    let message = failure_of(CustomTool::structured(&Unserializable).call());
    assert_eq!(message, "key must be a string");
}

#[test]
fn a_tool_can_be_called_again() {
    let greeter = Greeter { name: "Bo".to_string() };
    let tool = CustomTool::text(&greeter);
    assert_eq!(text_of(tool.call()), "Hello, Bo!");
    assert_eq!(text_of(tool.call()), "Hello, Bo!");
}

#[test]
fn sum_that_overflows_reports_an_error_without_a_sum() {
    let tool = SumTool { values: vec![1e308, 1e308] };
    let payload = payload_of(CustomTool::structured(&tool).call());
    assert_eq!(payload, object(vec![("error", Value::from("Infinite value detected"))]));
    assert!(!payload.contains_key("sum"));
}

#[test]
fn sum_of_finite_numbers_is_reported_without_an_error() {
    let tool = SumTool { values: vec![1.5, 2.0, -0.5] };
    let payload = payload_of(CustomTool::structured(&tool).call());
    assert_eq!(payload, object(vec![("sum", Value::from(3.0))]));
    let tool = SumTool { values: vec![] };
    assert_eq!(payload_of(CustomTool::structured(&tool).call()), object(vec![("sum", Value::from(0.0))]));
}
