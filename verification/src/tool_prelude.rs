//! What the definition of a tool needs.

pub use crate::tool::{
    CallResult, CustomTool, IntoStructuredToolResult, IntoTextToolResult, StructuredTool, TextTool,
    ToolError,
};
