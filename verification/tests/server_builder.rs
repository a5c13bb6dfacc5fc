use mcp_utils::json::JsonObject;
use mcp_utils::server_config::ServerConfig;
use mcp_utils::server_prelude::{ServerBuilder, ToolDescriptor, ToolSet};
use mcp_utils::tool_prelude::ToolError;
use serde_json::Value;
use std::time::Duration;

struct OneTool;

impl ToolSet for OneTool {
    fn get_tools() -> Vec<ToolDescriptor> {
        vec![ToolDescriptor {
            name: "one".to_string(),
            title: None,
            description: None,
            input_schema: Value::Null,
            output_schema: None,
            hints: None,
            meta: None,
        }]
    }

    fn from_arguments(_name: &str, _arguments: JsonObject) -> Result<Self, ToolError> {
        Ok(OneTool)
    }
}

struct NoTools;

impl ToolSet for NoTools {
    fn get_tools() -> Vec<ToolDescriptor> {
        Vec::new()
    }

    fn from_arguments(_name: &str, _arguments: JsonObject) -> Result<Self, ToolError> {
        Err(ToolError::from("no tools"))
    }
}

fn get_builder() -> ServerBuilder {
    ServerBuilder::new()
        .with_name("test-server")
        .with_title("Test MCP Server")
        .with_version("1.0.0")
        .with_instructions("This is a test server for demonstration purposes")
}

#[test]
fn new_builder_holds_the_defaults() {
    let builder = ServerBuilder::new();
    assert_eq!(builder.name(), "mcp-utils");
    assert_eq!(builder.version(), "0.1.0");
    assert_eq!(builder.title(), "");
    assert_eq!(builder.instructions(), "");
    assert_eq!(builder.timeout(), Duration::from_secs(60));
}

#[test]
fn default_builder_and_default_config_agree_with_new() {
    let builder = ServerBuilder::default();
    assert_eq!(builder.name(), ServerBuilder::new().name());
    assert_eq!(builder.timeout(), Duration::from_secs(60));
    let config = ServerConfig::default();
    assert_eq!(config.name, "mcp-utils");
    assert_eq!(config.title, "");
    assert_eq!(config.version, "0.1.0");
    assert_eq!(config.instructions, "");
    assert_eq!(config.timeout, Duration::from_secs(60));
    let copy = config.clone();
    assert_eq!(copy.name, config.name);
    assert_eq!(copy.timeout, config.timeout);
}

#[test]
fn with_methods_set_one_field_each() {
    let builder = get_builder();
    assert_eq!(builder.name(), "test-server");
    assert_eq!(builder.title(), "Test MCP Server");
    assert_eq!(builder.version(), "1.0.0");
    assert_eq!(builder.instructions(), "This is a test server for demonstration purposes");
    assert_eq!(builder.timeout(), Duration::from_secs(60));
    let builder = ServerBuilder::new().with_name("only-name");
    assert_eq!(builder.name(), "only-name");
    assert_eq!(builder.version(), "0.1.0");
    assert_eq!(builder.title(), "");
}

#[test]
fn set_methods_set_one_field_each() {
    let mut builder = ServerBuilder::new();
    builder.set_name("n");
    assert_eq!(builder.name(), "n");
    assert_eq!(builder.title(), "");
    builder.set_title("t");
    builder.set_version("v");
    builder.set_instructions("i");
    assert_eq!(builder.name(), "n");
    assert_eq!(builder.title(), "t");
    assert_eq!(builder.version(), "v");
    assert_eq!(builder.instructions(), "i");
    builder.set_name("again");
    assert_eq!(builder.name(), "again");
    assert_eq!(builder.version(), "v");
}

#[test]
fn configured_timeout_overrides_the_default() {
    let builder = ServerBuilder::new().with_timeout(Duration::from_millis(2500));
    assert_eq!(builder.timeout(), Duration::from_millis(2500));
    let mut builder = builder;
    builder.set_timeout(Duration::from_secs(7));
    assert_eq!(builder.timeout(), Duration::from_secs(7));
    assert_eq!(builder.name(), "mcp-utils");
}

#[test]
fn clone_of_a_builder_holds_the_same_configuration() {
    let builder = get_builder().with_timeout(Duration::from_secs(3));
    let copy = builder.clone();
    assert_eq!(copy.name(), "test-server");
    assert_eq!(copy.title(), "Test MCP Server");
    assert_eq!(copy.version(), "1.0.0");
    assert_eq!(copy.instructions(), builder.instructions());
    assert_eq!(copy.timeout(), Duration::from_secs(3));
}

#[test]
fn server_details_announce_the_configuration() {
    let details = get_builder().server_details(true);
    assert_eq!(details.name, "test-server");
    assert_eq!(details.version, "1.0.0");
    assert_eq!(details.title.as_deref(), Some("Test MCP Server"));
    assert_eq!(
        details.instructions.as_deref(),
        Some("This is a test server for demonstration purposes")
    );
    assert!(details.tools_capability);
    assert_eq!(details.protocol_version, "2025-06-18");
    assert_eq!(details.protocol_version, rust_mcp_sdk::schema::LATEST_PROTOCOL_VERSION);
}

#[test]
fn server_details_leave_an_empty_title_out() {
    let details = ServerBuilder::new().server_details(false);
    assert_eq!(details.title, None);
    assert_eq!(details.instructions.as_deref(), Some(""));
    assert!(!details.tools_capability);
    assert_eq!(details.name, "mcp-utils");
}

#[test]
fn tools_capability_is_present_if_and_only_if_a_tool_is_declared() {
    assert!(get_builder().get_server_details::<OneTool>().tools_capability);
    assert!(!get_builder().get_server_details::<NoTools>().tools_capability);
    assert_eq!(get_builder().get_server_details::<NoTools>().name, "test-server");
}
